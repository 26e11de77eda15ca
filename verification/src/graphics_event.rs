//! Work that is handed to Unity's render thread and comes back there.

use vstd::prelude::*;

verus! {

/// Runs the work of a graphics event on the render thread. `runtime` is the runtime that the
/// work was handed out under, if it still stands; `texture` is what the render thread put in
/// for it. Without a runtime the work is dropped, and the result says so.
pub fn deliver_graphics_event<R, X, F: FnOnce(&R, X)>(
    runtime: Option<R>,
    texture: X,
    work: F,
) -> (delivered: bool)
    requires
        runtime matches Some(r) ==> call_requires(work, (&r, texture)),
    ensures
        delivered <==> runtime is Some,
        runtime matches Some(r) ==> call_ensures(work, (&r, texture), ()),
{
    match runtime {
        Some(r) => {
            work(&r, texture);
            true
        },
        None => false,
    }
}

/// Work is delivered exactly where its runtime still stands, and then it is run under that
/// runtime, with the texture that the render thread put in.
pub proof fn law_work_is_delivered_under_its_runtime<R, X, F: FnOnce(&R, X)>(
    runtime: Option<R>,
    texture: X,
    work: F,
    delivered: bool,
)
    requires
        call_ensures(deliver_graphics_event::<R, X, F>, (runtime, texture, work), delivered),
    ensures
        delivered == (runtime is Some),
        runtime matches Some(r) ==> call_ensures(work, (&r, texture), ()),
        (runtime matches Some(r) ==> call_requires(work, (&r, texture))) ==> call_requires(
            deliver_graphics_event::<R, X, F>,
            (runtime, texture, work),
        ),
{
}

} // verus!
