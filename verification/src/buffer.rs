//! Byte buffers handed out under a common size limit.
//!
//! A [`SharedBufferPool`] remembers the length of every buffer that it gave out and that is
//! still in use, and refuses a buffer that would take the sum of those lengths over its limit.
//! Dropping a [`SharedBuffer`] gives its length back: the pool and the buffer hold one counted
//! length between them, nobody else does, and the pool forgets a length that it alone holds.

use crate::error::CommonError;
use crate::handle::{Handle, Hold};
use vstd::prelude::*;

verus! {

/// The sum of the lengths in `lens`.
pub open spec fn total(lens: Seq<usize>) -> nat
    decreases lens.len(),
{
    if lens.len() == 0 {
        0
    } else {
        total(lens.drop_last()) + lens.last() as nat
    }
}

/// The items whose flag in `alive` is set, in their order.
pub open spec fn surviving<T>(items: Seq<T>, alive: Seq<bool>) -> Seq<T>
    recommends
        items.len() == alive.len(),
    decreases items.len(),
{
    if items.len() == 0 {
        seq![]
    } else {
        let rest = surviving(items.drop_last(), alive.drop_last());
        if alive.last() {
            rest.push(items.last())
        } else {
            rest
        }
    }
}

/// Which handles somebody besides the pool still holds, given how often each is held.
pub open spec fn held_elsewhere(holders: Seq<usize>) -> Seq<bool> {
    holders.map_values(|count: usize| count > 1)
}

/// What a pool knows: the lengths that it counts as in use, oldest first, and its limit.
pub struct PoolState {
    pub lens: Seq<usize>,
    pub limit: usize,
}

impl PoolState {
    /// The counted lengths fit the limit. A limit of 0 is no limit.
    pub open spec fn wf(self) -> bool {
        self.limit > 0 ==> total(self.lens) <= self.limit
    }

    /// There is room for `size` more bytes.
    pub open spec fn admits(self, size: usize) -> bool {
        self.limit == 0 || total(self.lens) + size <= self.limit
    }

    /// The state once the buffers that are no longer in use are forgotten.
    pub open spec fn released(self, alive: Seq<bool>) -> PoolState {
        PoolState { lens: surviving(self.lens, alive), limit: self.limit }
    }

    /// The state after a request for `size` bytes that finds the buffers flagged in `alive` in
    /// use: the others are forgotten, and the new one is counted if there is room for it.
    pub open spec fn after_alloc(self, alive: Seq<bool>, size: usize) -> PoolState {
        let kept = self.released(alive);
        if kept.admits(size) {
            PoolState { lens: kept.lens.push(size), limit: kept.limit }
        } else {
            kept
        }
    }
}

/// The allocations that a pool counts after a request with outcome `result`: those of the
/// buffers still in use and, where the request was granted, that of the new buffer itself.
pub open spec fn allocations_after(
    counted: Seq<int>,
    alive: Seq<bool>,
    result: Result<SharedBuffer, CommonError>,
) -> Seq<int> {
    match result {
        Ok(buffer) => surviving(counted, alive).push(buffer.allocation()),
        Err(_) => surviving(counted, alive),
    }
}

pub struct SharedBufferPool {
    buffers: Vec<Handle>,
    limit: usize,
}

pub struct SharedBuffer {
    len: Hold,
    data: Vec<u8>,
}

impl View for SharedBufferPool {
    type V = PoolState;

    closed spec fn view(&self) -> PoolState {
        PoolState { lens: self.buffers@.map_values(|h: Handle| h.value()), limit: self.limit }
    }
}

impl View for SharedBuffer {
    type V = Seq<u8>;

    closed spec fn view(&self) -> Seq<u8> {
        self.data@
    }
}

impl SharedBufferPool {
    /// The lengths in use fit the pool's limit, and each is held by the pool and its buffer alone.
    pub open spec fn wf(&self) -> bool {
        self@.wf() && self.shares_each_once()
    }

    /// The pool holds each counted length once itself, and gave out one hold on it: that of its
    /// buffer.
    pub closed spec fn shares_each_once(&self) -> bool {
        forall|i: int| 0 <= i < self.buffers@.len() ==> (#[trigger] self.buffers@[i]).shares() == 1
    }

    /// The allocations of the counted lengths, in the order of the lengths.
    pub closed spec fn allocations(&self) -> Seq<int> {
        self.buffers@.map_values(|h: Handle| h.allocation())
    }

    /// `holders` is what the handles in the pool report of themselves: how often each is held,
    /// the pool's own hold included.
    pub closed spec fn reported(&self, holders: Seq<usize>) -> bool {
        &&& holders.len() == self.buffers@.len()
        &&& forall|i: int|
            0 <= i < holders.len() ==> call_ensures(
                Handle::strong_count,
                (&self.buffers@[i],),
                #[trigger] holders[i],
            )
    }

    /// A pool with no buffers in use. `limit` bounds the bytes in use; 0 leaves them unbounded.
    pub fn new(limit: usize) -> (pool: Self)
        ensures
            pool.wf(),
            pool@.limit == limit,
            pool@.lens == Seq::<usize>::empty(),
            pool.allocations() == Seq::<int>::empty(),
    {
        let pool = SharedBufferPool { buffers: Vec::new(), limit };
        assert(pool@.lens =~= Seq::<usize>::empty());
        assert(pool.allocations() =~= Seq::<int>::empty());
        pool
    }

    /// What `count` says of each handle in the pool.
    fn holder_counts<F: Fn(&Handle) -> usize>(&self, count: F) -> (holders: Vec<usize>)
        requires
            forall|h: &Handle| call_requires(count, (h,)),
        ensures
            holders@.len() == self.buffers@.len(),
            forall|i: int|
                0 <= i < holders@.len() ==> call_ensures(
                    count,
                    (&self.buffers@[i],),
                    #[trigger] holders@[i],
                ),
    {
        let mut holders: Vec<usize> = Vec::new();
        let n: usize = self.buffers.len();
        let mut i: usize = 0;
        while i < n
            invariant
                n == self.buffers@.len(),
                i <= n,
                holders@.len() == i,
                forall|h: &Handle| call_requires(count, (h,)),
                forall|j: int|
                    0 <= j < i ==> call_ensures(
                        count,
                        (&self.buffers@[j],),
                        #[trigger] holders@[j],
                    ),
            decreases n - i,
        {
            holders.push(count(&self.buffers[i]));
            i = i + 1;
        }
        holders
    }

    /// A zeroed buffer of `size` bytes, if the buffers still in use leave room for it.
    ///
    /// How often each handle is held is what the handles report while the call runs (`holders`).
    /// The new buffer shares its handle with the pool. Whatever the handles report, the request
    /// is granted if even all the counted buffers together leave room, and refused if it is over
    /// the limit by itself.
    pub fn allocate(&mut self, size: usize) -> (result: Result<SharedBuffer, CommonError>)
        requires
            old(self).wf(),
            size <= isize::MAX || 0 < old(self)@.limit < size,
        ensures
            final(self).wf(),
            exists|holders: Seq<usize>| #![trigger held_elsewhere(holders)] {
                &&& holders.len() == old(self)@.lens.len()
                &&& old(self).reported(holders)
                &&& forall|i: int|
                    0 <= i < holders.len() ==> 1 <= #[trigger] holders[i] <= 2
                &&& final(self)@ == old(self)@.after_alloc(held_elsewhere(holders), size)
                &&& final(self).allocations() == allocations_after(
                    old(self).allocations(),
                    held_elsewhere(holders),
                    result,
                )
                &&& result is Ok <==> old(self)@.released(held_elsewhere(holders)).admits(size)
            },
            old(self)@.admits(size) ==> result is Ok,
            0 < old(self)@.limit < size ==> result is Err,
            result matches Ok(buffer) ==> buffer.wf() && buffer@ == Seq::new(
                size as nat,
                |i: int| 0u8,
            ),
            result matches Err(e) ==> e == CommonError::BufferPoolExceeded,
    {
        let holders = self.holder_counts(Handle::strong_count);
        proof {
            let alive = held_elsewhere(holders@);
            lemma_surviving_total(self@.lens, alive);
            law_only_its_buffer_shares_a_length(*self, holders@);
        }
        self.allocate_observed(&holders, size)
    }

    /// What [`allocate`](Self::allocate) does once it has read off how often each handle is held:
    /// a buffer whose handle only the pool still holds is no longer in use.
    pub fn allocate_observed(&mut self, holders: &Vec<usize>, size: usize) -> (result: Result<
        SharedBuffer,
        CommonError,
    >)
        requires
            old(self).wf(),
            holders@.len() == old(self)@.lens.len(),
            size <= isize::MAX || !old(self)@.released(held_elsewhere(holders@)).admits(size),
        ensures
            final(self).wf(),
            final(self)@ == old(self)@.after_alloc(held_elsewhere(holders@), size),
            final(self).allocations() == allocations_after(
                old(self).allocations(),
                held_elsewhere(holders@),
                result,
            ),
            result is Ok <==> old(self)@.released(held_elsewhere(holders@)).admits(size),
            result matches Ok(buffer) ==> buffer.wf() && buffer@ == Seq::new(
                size as nat,
                |i: int| 0u8,
            ),
            result matches Err(e) ==> e == CommonError::BufferPoolExceeded,
    {
        let ghost lens = self@.lens;
        let ghost allocations = self.allocations();
        let ghost alive = held_elsewhere(holders@);
        let n: usize = self.buffers.len();
        let mut i: usize = 0;
        let mut k: usize = 0;
        assert(lens.skip(0) =~= lens);
        assert(allocations.skip(0) =~= allocations);
        assert(surviving(lens.take(0), alive.take(0)) + lens.skip(0) =~= lens);
        assert(surviving(allocations.take(0), alive.take(0)) + allocations.skip(0)
            =~= allocations);
        while i < n
            invariant
                n == lens.len() == allocations.len() == holders@.len(),
                k <= i <= n,
                self.limit == old(self).limit,
                self.shares_each_once(),
                alive == held_elsewhere(holders@),
                k == surviving(lens.take(i as int), alive.take(i as int)).len(),
                k == surviving(allocations.take(i as int), alive.take(i as int)).len(),
                self@.lens == surviving(lens.take(i as int), alive.take(i as int)) + lens.skip(
                    i as int,
                ),
                self.allocations() == surviving(allocations.take(i as int), alive.take(i as int))
                    + allocations.skip(i as int),
            decreases n - i,
        {
            let ghost before = self.buffers@;
            proof {
                assert(lens.take(i + 1).drop_last() =~= lens.take(i as int));
                assert(allocations.take(i + 1).drop_last() =~= allocations.take(i as int));
                assert(alive.take(i + 1).drop_last() =~= alive.take(i as int));
                assert(alive.take(i + 1).last() == alive[i as int]);
                assert(self@.lens.len() == before.len());
            }
            if holders[i] > 1 {
                k = k + 1;
            } else {
                self.buffers.remove(k);
                proof {
                    assert(self@.lens =~= before.map_values(|h: Handle| h.value()).remove(
                        k as int,
                    ));
                    assert(self.allocations() =~= before.map_values(
                        |h: Handle| h.allocation(),
                    ).remove(k as int));
                    assert forall|j: int| 0 <= j < self.buffers@.len() implies (
                    #[trigger] self.buffers@[j]).shares() == 1 by {
                        assert(self.buffers@[j] == before[if j < k {
                            j
                        } else {
                            j + 1
                        }]);
                    }
                }
            }
            i = i + 1;
            assert(self@.lens =~= surviving(lens.take(i as int), alive.take(i as int)) + lens.skip(
                i as int,
            ));
            assert(self.allocations() =~= surviving(
                allocations.take(i as int),
                alive.take(i as int),
            ) + allocations.skip(i as int));
        }
        assert(lens.take(n as int) =~= lens);
        assert(allocations.take(n as int) =~= allocations);
        assert(alive.take(n as int) =~= alive);
        assert(self@.lens =~= surviving(lens, alive));
        assert(self.allocations() =~= surviving(allocations, alive));
        assert(self@ == old(self)@.released(alive));
        proof {
            lemma_surviving_total(lens, alive);
        }

        if self.limit > 0 {
            let current = self.in_use();
            if size > self.limit - current {
                return Err(CommonError::BufferPoolExceeded);
            }
        }
        let mut handle = Handle::new(size);
        let len = handle.share();
        self.buffers.push(handle);
        proof {
            assert(self@.lens =~= old(self)@.released(alive).lens.push(size));
            assert(self@.lens.drop_last() =~= old(self)@.released(alive).lens);
            assert(self.allocations() =~= surviving(allocations, alive).push(len.allocation()));
        }
        let data: Vec<u8> = vec![0u8; size];
        assert(data@ =~= Seq::new(size as nat, |i: int| 0u8));
        Ok(SharedBuffer { data, len })
    }

    /// The bytes that the pool counts as in use. A limit keeps the sum in range.
    fn in_use(&self) -> (current: usize)
        requires
            self.wf(),
            self@.limit > 0,
        ensures
            current as nat == total(self@.lens),
    {
        let mut current: usize = 0;
        let n: usize = self.buffers.len();
        let mut i: usize = 0;
        while i < n
            invariant
                n == self.buffers@.len() == self@.lens.len(),
                i <= n,
                self.wf(),
                self@.limit > 0,
                current as nat == total(self@.lens.take(i as int)),
            decreases n - i,
        {
            proof {
                assert(self@.lens.take(i + 1).drop_last() =~= self@.lens.take(i as int));
                lemma_total_take(self@.lens, i + 1);
            }
            current = current + self.buffers[i].get();
            i = i + 1;
        }
        assert(self@.lens.take(n as int) =~= self@.lens);
        current
    }
}

impl SharedBuffer {
    /// The length on record is the number of bytes held.
    pub closed spec fn wf(&self) -> bool {
        self.len.value() == self.data@.len()
    }

    /// The allocation that the buffer shares with the pool that counts it, if one does.
    pub closed spec fn allocation(&self) -> int {
        self.len.allocation()
    }

    /// A buffer around `vec` that no pool counts.
    pub fn new_unmanaged(vec: Vec<u8>) -> (buffer: Self)
        ensures
            buffer.wf(),
            buffer@ == vec@,
    {
        let len = Hold::new(vec.len());
        SharedBuffer { data: vec, len }
    }

    pub fn len(&self) -> (len: usize)
        requires
            self.wf(),
        ensures
            len == self@.len(),
    {
        self.len.get()
    }

    pub fn is_empty(&self) -> (empty: bool)
        requires
            self.wf(),
        ensures
            empty <==> self@.len() == 0,
    {
        self.len() == 0
    }

    pub fn data(&self) -> (bytes: &[u8])
        ensures
            bytes@ == self@,
    {
        &self.data
    }

    /// The bytes for writing. What is written is what the buffer holds from then on; their
    /// number stays as it was.
    pub fn data_mut(&mut self) -> (bytes: &mut [u8])
        requires
            old(self).wf(),
        ensures
            bytes@ == old(self)@,
            final(bytes)@ == final(self)@,
            final(bytes)@.len() == old(self)@.len() ==> final(self).wf(),
            final(self).allocation() == old(self).allocation(),
    {
        &mut self.data
    }
}

/// A buffer is its hold on its length and its bytes, and nothing besides, and the pool is the
/// handles of the lengths that it counts and its limit, and nothing besides: so dropping a buffer
/// gives up its hold, and the pool keeps no other.
proof fn law_nothing_else_is_kept(buffer: SharedBuffer, pool: SharedBufferPool)
    ensures
        ({
            let len: Hold = buffer.len;
            let data: Vec<u8> = buffer.data;
            buffer == (SharedBuffer { len, data })
        }),
        ({
            let buffers: Vec<Handle> = pool.buffers;
            let limit: usize = pool.limit;
            pool == (SharedBufferPool { buffers, limit })
        }),
{
}

proof fn lemma_total_take(lens: Seq<usize>, n: int)
    requires
        0 <= n <= lens.len(),
    ensures
        total(lens.take(n)) <= total(lens),
    decreases lens.len(),
{
    if n == lens.len() {
        assert(lens.take(n) =~= lens);
    } else {
        lemma_total_take(lens.drop_last(), n);
        assert(lens.drop_last().take(n) =~= lens.take(n));
    }
}

proof fn lemma_surviving_total(lens: Seq<usize>, alive: Seq<bool>)
    requires
        lens.len() == alive.len(),
    ensures
        total(surviving(lens, alive)) <= total(lens),
    decreases lens.len(),
{
    if lens.len() > 0 {
        let rest = surviving(lens.drop_last(), alive.drop_last());
        lemma_surviving_total(lens.drop_last(), alive.drop_last());
        assert(rest.push(lens.last()).drop_last() =~= rest);
    }
}

/// What a handle in the pool reports is the pool's own hold, and one more at most: that of the
/// buffer that the length was counted for. So where that buffer is gone, the report is 1.
pub proof fn law_only_its_buffer_shares_a_length(pool: SharedBufferPool, holders: Seq<usize>)
    requires
        pool.wf(),
        pool.reported(holders),
    ensures
        holders.len() == pool@.lens.len(),
        forall|i: int| 0 <= i < holders.len() ==> 1 <= #[trigger] holders[i] <= 2,
{
    assert forall|i: int| 0 <= i < holders.len() implies 1 <= #[trigger] holders[i] <= 2 by {
        assert(pool.buffers@[i].shares() == 1);
        assert(call_ensures(Handle::strong_count, (&pool.buffers@[i],), holders[i]));
    }
}

/// A limit of 0 is no limit: such a pool has room for any request, whatever is in use.
pub proof fn law_zero_limit_is_unlimited(lens: Seq<usize>, alive: Seq<bool>, size: usize)
    requires
        lens.len() == alive.len(),
    ensures
        (PoolState { lens, limit: 0 }).released(alive).admits(size),
        (PoolState { lens, limit: 0 }).after_alloc(alive, size).lens == surviving(
            lens,
            alive,
        ).push(size),
{
}

/// No request takes the bytes in use over the limit, granted or not.
pub proof fn law_limit_is_kept(state: PoolState, alive: Seq<bool>, size: usize)
    requires
        state.wf(),
        alive.len() == state.lens.len(),
    ensures
        state.after_alloc(alive, size).wf(),
        state.after_alloc(alive, size).limit == state.limit,
{
    lemma_surviving_total(state.lens, alive);
    let kept = state.released(alive).lens;
    assert(kept.push(size).drop_last() =~= kept);
}

/// Releasing buffers never takes room away: what fits while more of them are in use still fits
/// while fewer are.
pub proof fn law_release_makes_room(
    state: PoolState,
    fewer: Seq<bool>,
    more: Seq<bool>,
    size: usize,
)
    requires
        fewer.len() == state.lens.len(),
        more.len() == state.lens.len(),
        forall|i: int| 0 <= i < fewer.len() && #[trigger] fewer[i] ==> more[i],
        state.released(more).admits(size),
    ensures
        state.released(fewer).admits(size),
{
    lemma_surviving_monotone(state.lens, fewer, more);
}

/// A smaller request fits wherever a larger one does.
pub proof fn law_smaller_request_fits(state: PoolState, small: usize, large: usize)
    requires
        small <= large,
        state.admits(large),
    ensures
        state.admits(small),
{
}

/// A limited pool can be filled to the last byte, and a full one takes empty buffers only.
pub proof fn law_fills_to_the_limit(state: PoolState, size: usize)
    requires
        state.wf(),
        state.limit > 0,
        size == state.limit - total(state.lens),
    ensures
        state.admits(size),
        forall|next: usize|
            (PoolState { lens: state.lens.push(size), limit: state.limit }).admits(next) <==> next
                == 0,
{
    assert(state.lens.push(size).drop_last() =~= state.lens);
}

/// Dropping a buffer undoes its allocation: once it is released, the pool counts what it
/// counted before.
pub proof fn law_release_undoes_alloc(state: PoolState, size: usize)
    requires
        state.admits(size),
    ensures
        ({
            let all = Seq::new(state.lens.len(), |i: int| true);
            state.after_alloc(all, size).released(all.push(false)) == state
        }),
{
    let all = Seq::new(state.lens.len(), |i: int| true);
    lemma_surviving_all(state.lens);
    let grown = state.lens.push(size);
    assert(grown.drop_last() =~= state.lens);
    assert(all.push(false).drop_last() =~= all);
    assert(surviving(grown, all.push(false)) =~= state.lens);
}

/// A buffer whose handle reports a holder besides the pool stays counted, with its length and
/// under its allocation.
pub proof fn law_held_buffers_stay_counted(
    lens: Seq<usize>,
    allocations: Seq<int>,
    holders: Seq<usize>,
    i: int,
)
    requires
        lens.len() == allocations.len() == holders.len(),
        0 <= i < holders.len(),
        holders[i] > 1,
    ensures
        ({
            let kept = surviving(lens, held_elsewhere(holders));
            let kept_allocations = surviving(allocations, held_elsewhere(holders));
            &&& kept.len() == kept_allocations.len()
            &&& exists|j: int|
                0 <= j < kept.len() && #[trigger] kept[j] == lens[i] && kept_allocations[j]
                    == allocations[i]
        }),
    decreases holders.len(),
{
    let alive = held_elsewhere(holders);
    let kept = surviving(lens, alive);
    lemma_surviving_aligned(lens, allocations, alive);
    assert(alive.drop_last() =~= held_elsewhere(holders.drop_last()));
    if i == holders.len() - 1 {
        lemma_surviving_aligned(lens.drop_last(), allocations.drop_last(), alive.drop_last());
        assert(kept[kept.len() - 1] == lens[i]);
    } else {
        law_held_buffers_stay_counted(
            lens.drop_last(),
            allocations.drop_last(),
            holders.drop_last(),
            i,
        );
        let rest = surviving(lens.drop_last(), alive.drop_last());
        let rest_allocations = surviving(allocations.drop_last(), alive.drop_last());
        lemma_surviving_aligned(lens.drop_last(), allocations.drop_last(), alive.drop_last());
        let j = choose|j: int|
            0 <= j < rest.len() && #[trigger] rest[j] == lens.drop_last()[i] && rest_allocations[j]
                == allocations.drop_last()[i];
        assert(kept[j] == lens[i]);
    }
}

/// A buffer of which the pool is the only holder is not counted any longer: what is counted is
/// what is left without it.
pub proof fn law_dropped_buffers_are_forgotten(state: PoolState, holders: Seq<usize>, i: int)
    requires
        state.lens.len() == holders.len(),
        0 <= i < holders.len(),
        holders[i] <= 1,
    ensures
        state.released(held_elsewhere(holders)).lens == surviving(
            state.lens.remove(i),
            held_elsewhere(holders.remove(i)),
        ),
{
    assert(held_elsewhere(holders.remove(i)) =~= held_elsewhere(holders).remove(i));
    lemma_surviving_remove(state.lens, held_elsewhere(holders), i);
}

/// A refused request changes no later answer: a request after it is answered, and leaves the
/// pool, as if the refused one had not been made. (`now` flags the buffers in use at the later
/// request. One that was no longer in use at the refused request is not among them.)
pub proof fn law_refusal_changes_no_later_answer(
    state: PoolState,
    alive: Seq<bool>,
    size: usize,
    now: Seq<bool>,
    next: usize,
)
    requires
        alive.len() == state.lens.len(),
        now.len() == state.lens.len(),
        forall|i: int| 0 <= i < now.len() && #[trigger] now[i] ==> alive[i],
        !state.released(alive).admits(size),
    ensures
        ({
            let refused = state.after_alloc(alive, size);
            let left = surviving(now, alive);
            &&& left.len() == refused.lens.len()
            &&& refused.released(left).admits(next) <==> state.released(now).admits(next)
            &&& refused.after_alloc(left, next) == state.after_alloc(now, next)
        }),
{
    lemma_surviving_aligned(state.lens, now, alive);
    lemma_surviving_twice(state.lens, alive, now);
}

/// A dropped buffer gives its bytes back: let a request for `size` bytes be granted, and its
/// buffer be dropped. Then the next request for as many is granted, however many they are and
/// whichever of the other buffers still exist. (`existing` says which buffers exist at that
/// request; each length is held by the pool, and by its buffer where that exists.)
pub proof fn law_dropped_buffer_gives_its_bytes_back(
    state: PoolState,
    holders: Seq<usize>,
    size: usize,
    existing: Seq<bool>,
    later: Seq<usize>,
)
    requires
        holders.len() == state.lens.len(),
        state.released(held_elsewhere(holders)).admits(size),
        existing.len() == later.len(),
        later.len() == state.after_alloc(held_elsewhere(holders), size).lens.len(),
        forall|i: int|
            0 <= i < later.len() ==> #[trigger] later[i] == (if existing[i] {
                2usize
            } else {
                1usize
            }),
        !existing.last(),
    ensures
        state.after_alloc(held_elsewhere(holders), size).lens.len() > 0,
        state.after_alloc(held_elsewhere(holders), size).released(held_elsewhere(later)).admits(
            size,
        ),
{
    let kept = state.released(held_elsewhere(holders));
    let grown = state.after_alloc(held_elsewhere(holders), size);
    let alive = held_elsewhere(later);
    assert(later[later.len() - 1] == 1);
    assert(grown.lens.drop_last() =~= kept.lens);
    lemma_surviving_total(kept.lens, alive.drop_last());
}

/// A request is granted exactly where its size and the lengths of the buffers that somebody
/// besides the pool still holds add up to the limit at most, or where there is no limit.
pub proof fn law_request_is_granted_where_live_buffers_leave_room(
    state: PoolState,
    holders: Seq<usize>,
    size: usize,
)
    requires
        holders.len() == state.lens.len(),
    ensures
        state.released(held_elsewhere(holders)).admits(size) <==> {
            ||| state.limit == 0
            ||| Seq::new(
                state.lens.len(),
                |i: int|
                    if holders[i] > 1 {
                        state.lens[i] as int
                    } else {
                        0
                    },
            ).fold_left(0, |sum: int, len: int| sum + len) + size <= state.limit
        },
{
    let counted = Seq::new(
        state.lens.len(),
        |i: int|
            if holders[i] > 1 {
                state.lens[i] as int
            } else {
                0
            },
    );
    lemma_total_is_fold(
        state.lens,
        held_elsewhere(holders),
        counted,
        |sum: int, len: int| sum + len,
    );
}

/// After a request the pool counts, in their order, the lengths of the buffers that somebody
/// besides the pool still holds, and behind them the requested one where the request was granted;
/// and it counts them under the allocations that they have, the new one under that of the very
/// buffer that was given out. The limit stays.
pub proof fn law_live_buffers_and_the_new_one_are_counted(
    state: PoolState,
    allocations: Seq<int>,
    holders: Seq<usize>,
    size: usize,
    result: Result<SharedBuffer, CommonError>,
)
    requires
        holders.len() == state.lens.len() == allocations.len(),
        result is Ok <==> state.released(held_elsewhere(holders)).admits(size),
    ensures
        ({
            let live = Seq::new(holders.len(), |i: int| i).filter(|i: int| holders[i] > 1);
            let after = state.after_alloc(held_elsewhere(holders), size);
            let counted = allocations_after(allocations, held_elsewhere(holders), result);
            &&& after.limit == state.limit
            &&& result is Err ==> {
                &&& after.lens == live.map_values(|i: int| state.lens[i])
                &&& counted == live.map_values(|i: int| allocations[i])
            }
            &&& result matches Ok(buffer) ==> {
                &&& after.lens == live.map_values(|i: int| state.lens[i]).push(size)
                &&& counted == live.map_values(|i: int| allocations[i]).push(buffer.allocation())
            }
        }),
{
    let indices = Seq::new(holders.len(), |i: int| i);
    let pred = |i: int| holders[i] > 1;
    lemma_surviving_is_filter(state.lens, held_elsewhere(holders), indices, pred);
    lemma_surviving_is_filter(allocations, held_elsewhere(holders), indices, pred);
}

/// A new pool has the given limit, whatever it is, and counts nothing.
pub proof fn law_new_pool_counts_nothing(limit: usize, pool: SharedBufferPool)
    requires
        call_ensures(SharedBufferPool::new, (limit,), pool),
    ensures
        call_requires(SharedBufferPool::new, (limit,)),
        pool.wf(),
        pool@.limit == limit,
        pool@.lens.len() == 0,
{
}

/// What is granted is a buffer of exactly the requested size, all of it zero; what is refused is
/// refused because the pool is exceeded. Any size that memory can be had for is accepted, and so
/// is any that is over the limit by itself.
pub proof fn law_granted_buffer_is_zeroed(
    pool: &mut SharedBufferPool,
    size: usize,
    result: Result<SharedBuffer, CommonError>,
)
    requires
        old(pool).wf(),
        call_ensures(SharedBufferPool::allocate, (pool, size), result),
    ensures
        size <= isize::MAX || 0 < old(pool)@.limit < size ==> call_requires(
            SharedBufferPool::allocate,
            (pool, size),
        ),
        final(pool).wf(),
        result matches Err(e) ==> e is BufferPoolExceeded,
        result matches Ok(buffer) ==> {
            &&& buffer.wf()
            &&& buffer@.len() == size
            &&& forall|i: int| 0 <= i < buffer@.len() ==> #[trigger] buffer@[i] == 0
        },
{
}

/// A request goes by the buffers that still exist, and by no other. Let `existing` say which of
/// the buffers do that the pool counts; each length is held by the pool once, and once more by its
/// buffer where that exists. Then the request is granted exactly where the lengths of those
/// buffers and its own add up to the limit at most, or where there is no limit; and the pool
/// counts those lengths then, in their order, and the new one behind them where it was granted.
pub proof fn law_request_goes_by_the_existing_buffers(
    pool: &mut SharedBufferPool,
    existing: Seq<bool>,
    size: usize,
    result: Result<SharedBuffer, CommonError>,
)
    requires
        old(pool).wf(),
        existing.len() == old(pool)@.lens.len(),
        forall|holders: Seq<usize>, i: int|
            old(pool).reported(holders) && 0 <= i < holders.len() ==> #[trigger] holders[i] == (
            if existing[i] {
                2usize
            } else {
                1usize
            }),
        call_ensures(SharedBufferPool::allocate, (pool, size), result),
    ensures
        result is Ok <==> {
            ||| old(pool)@.limit == 0
            ||| Seq::new(
                existing.len(),
                |i: int|
                    if existing[i] {
                        old(pool)@.lens[i] as int
                    } else {
                        0
                    },
            ).fold_left(0, |sum: int, len: int| sum + len) + size <= old(pool)@.limit
        },
        final(pool)@.limit == old(pool)@.limit,
        ({
            let kept = Seq::new(existing.len(), |i: int| i).filter(
                |i: int| existing[i],
            ).map_values(|i: int| old(pool)@.lens[i]);
            final(pool)@.lens == if result is Ok {
                kept.push(size)
            } else {
                kept
            }
        }),
{
    let before = old(pool)@;
    let holders = choose|holders: Seq<usize>| #![trigger held_elsewhere(holders)] {
        &&& holders.len() == before.lens.len()
        &&& old(pool).reported(holders)
        &&& final(pool)@ == before.after_alloc(held_elsewhere(holders), size)
        &&& result is Ok <==> before.released(held_elsewhere(holders)).admits(size)
    };
    let alive = held_elsewhere(holders);
    assert forall|i: int| 0 <= i < alive.len() implies alive[i] == existing[i] by {
        assert(alive[i] == (holders[i] > 1));
    }
    assert(alive =~= existing);
    lemma_total_is_fold(
        before.lens,
        alive,
        Seq::new(
            existing.len(),
            |i: int|
                if existing[i] {
                    before.lens[i] as int
                } else {
                    0
                },
        ),
        |sum: int, len: int| sum + len,
    );
    lemma_surviving_is_filter(
        before.lens,
        alive,
        Seq::new(existing.len(), |i: int| i),
        |i: int| existing[i],
    );
}

/// The bytes of a dropped buffer can be had again: where a request was granted and its buffer has
/// been dropped, so that the pool alone still holds its length, the next request for as many
/// bytes is granted, however many they are and whatever became of the other buffers.
pub proof fn law_bytes_of_a_dropped_buffer_can_be_had_again(
    first: &mut SharedBufferPool,
    size: usize,
    given: Result<SharedBuffer, CommonError>,
    second: &mut SharedBufferPool,
    again: Result<SharedBuffer, CommonError>,
)
    requires
        old(first).wf(),
        call_ensures(SharedBufferPool::allocate, (first, size), given),
        given is Ok,
        *old(second) == *final(first),
        forall|holders: Seq<usize>| #[trigger]
            old(second).reported(holders) ==> holders.last() == 1,
        call_ensures(SharedBufferPool::allocate, (second, size), again),
    ensures
        again is Ok,
{
    let before = old(first)@;
    let holders = choose|holders: Seq<usize>| #![trigger held_elsewhere(holders)] {
        &&& holders.len() == before.lens.len()
        &&& old(first).reported(holders)
        &&& final(first)@ == before.after_alloc(held_elsewhere(holders), size)
        &&& given is Ok <==> before.released(held_elsewhere(holders)).admits(size)
    };
    let between = old(second)@;
    let later = choose|later: Seq<usize>| #![trigger held_elsewhere(later)] {
        &&& later.len() == between.lens.len()
        &&& old(second).reported(later)
        &&& again is Ok <==> between.released(held_elsewhere(later)).admits(size)
        &&& forall|i: int| 0 <= i < later.len() ==> 1 <= #[trigger] later[i] <= 2
    };
    law_dropped_buffer_gives_its_bytes_back(before, holders, size, held_elsewhere(later), later);
}

/// The pool counts what it gave out: until the holder of a granted buffer drops it, so that
/// somebody besides the pool holds its length, a request that does not fit beside it is refused.
pub proof fn law_held_buffer_takes_up_room(
    first: &mut SharedBufferPool,
    size: usize,
    given: Result<SharedBuffer, CommonError>,
    second: &mut SharedBufferPool,
    more: usize,
    refused: Result<SharedBuffer, CommonError>,
)
    requires
        old(first).wf(),
        old(first)@.limit > 0,
        call_ensures(SharedBufferPool::allocate, (first, size), given),
        given is Ok,
        *old(second) == *final(first),
        forall|holders: Seq<usize>| #[trigger]
            old(second).reported(holders) ==> holders.last() == 2,
        call_ensures(SharedBufferPool::allocate, (second, more), refused),
        size + more > old(first)@.limit,
    ensures
        refused is Err,
{
    let between = old(second)@;
    let later = choose|later: Seq<usize>| #![trigger held_elsewhere(later)] {
        &&& later.len() == between.lens.len()
        &&& old(second).reported(later)
        &&& refused is Ok <==> between.released(held_elsewhere(later)).admits(more)
    };
    let alive = held_elsewhere(later);
    assert(between.lens.last() == size);
    assert(alive.last());
    let rest = surviving(between.lens.drop_last(), alive.drop_last());
    assert(rest.push(size).drop_last() =~= rest);
}

/// What the pool does once it has the number of holders of each length: the lengths with a holder
/// besides the pool count, the others do not. Any numbers are accepted, one for each length.
pub proof fn law_observed_holders_decide(
    pool: &mut SharedBufferPool,
    holders: &Vec<usize>,
    size: usize,
    result: Result<SharedBuffer, CommonError>,
)
    requires
        old(pool).wf(),
        holders@.len() == old(pool)@.lens.len(),
        call_ensures(SharedBufferPool::allocate_observed, (pool, holders, size), result),
    ensures
        size <= isize::MAX ==> call_requires(
            SharedBufferPool::allocate_observed,
            (pool, holders, size),
        ),
        final(pool).wf(),
        final(pool)@.limit == old(pool)@.limit,
        result is Ok <==> {
            ||| old(pool)@.limit == 0
            ||| Seq::new(
                holders@.len(),
                |i: int|
                    if holders@[i] > 1 {
                        old(pool)@.lens[i] as int
                    } else {
                        0
                    },
            ).fold_left(0, |sum: int, len: int| sum + len) + size <= old(pool)@.limit
        },
        result matches Err(e) ==> e is BufferPoolExceeded,
        result matches Ok(buffer) ==> {
            &&& buffer.wf()
            &&& buffer@.len() == size
            &&& forall|i: int| 0 <= i < buffer@.len() ==> #[trigger] buffer@[i] == 0
        },
        ({
            let kept = Seq::new(holders@.len(), |i: int| i).filter(
                |i: int| holders@[i] > 1,
            ).map_values(|i: int| old(pool)@.lens[i]);
            final(pool)@.lens == if result is Ok {
                kept.push(size)
            } else {
                kept
            }
        }),
{
    let before = old(pool)@;
    let alive = held_elsewhere(holders@);
    lemma_total_is_fold(
        before.lens,
        alive,
        Seq::new(
            holders@.len(),
            |i: int|
                if holders@[i] > 1 {
                    before.lens[i] as int
                } else {
                    0
                },
        ),
        |sum: int, len: int| sum + len,
    );
    lemma_surviving_is_filter(
        before.lens,
        alive,
        Seq::new(holders@.len(), |i: int| i),
        |i: int| holders@[i] > 1,
    );
}

/// A buffer made around bytes gives exactly those bytes to read, and their number as its length.
pub proof fn law_unmanaged_buffer_reads_back(
    vec: Vec<u8>,
    buffer: SharedBuffer,
    bytes: &[u8],
    len: usize,
    empty: bool,
)
    requires
        call_ensures(SharedBuffer::new_unmanaged, (vec,), buffer),
        call_ensures(SharedBuffer::data, (&buffer,), bytes),
        call_ensures(SharedBuffer::len, (&buffer,), len),
        call_ensures(SharedBuffer::is_empty, (&buffer,), empty),
    ensures
        call_requires(SharedBuffer::new_unmanaged, (vec,)),
        call_requires(SharedBuffer::data, (&buffer,)),
        call_requires(SharedBuffer::len, (&buffer,)),
        call_requires(SharedBuffer::is_empty, (&buffer,)),
        bytes@ == vec@,
        len == vec@.len(),
        empty <==> vec@.len() == 0,
{
}

/// What is written into a buffer is what is read from it, and the length stays what it was.
pub proof fn law_written_bytes_are_read_back(
    buffer: &mut SharedBuffer,
    bytes: &mut [u8],
    after: SharedBuffer,
    read: &[u8],
    len: usize,
)
    requires
        old(buffer).wf(),
        call_ensures(SharedBuffer::data_mut, (buffer,), bytes),
        after == *final(buffer),
        final(bytes)@.len() == old(bytes)@.len(),
        call_ensures(SharedBuffer::data, (&after,), read),
        call_ensures(SharedBuffer::len, (&after,), len),
    ensures
        call_requires(SharedBuffer::data_mut, (buffer,)),
        old(bytes)@ == old(buffer)@,
        read@ == final(bytes)@,
        after.wf(),
        len == old(buffer)@.len(),
        after.allocation() == old(buffer).allocation(),
{
}

proof fn lemma_total_is_fold(
    lens: Seq<usize>,
    alive: Seq<bool>,
    counted: Seq<int>,
    plus: spec_fn(int, int) -> int,
)
    requires
        lens.len() == alive.len() == counted.len(),
        forall|i: int|
            0 <= i < counted.len() ==> #[trigger] counted[i] == (if alive[i] {
                lens[i] as int
            } else {
                0
            }),
        forall|a: int, b: int| #[trigger] plus(a, b) == a + b,
    ensures
        counted.fold_left(0, plus) == total(surviving(lens, alive)),
    decreases lens.len(),
{
    if lens.len() > 0 {
        lemma_total_is_fold(lens.drop_last(), alive.drop_last(), counted.drop_last(), plus);
        let rest = surviving(lens.drop_last(), alive.drop_last());
        assert(rest.push(lens.last()).drop_last() =~= rest);
    }
}

proof fn lemma_surviving_is_filter<T>(
    items: Seq<T>,
    alive: Seq<bool>,
    indices: Seq<int>,
    pred: spec_fn(int) -> bool,
)
    requires
        items.len() == alive.len() == indices.len(),
        forall|i: int| 0 <= i < indices.len() ==> #[trigger] indices[i] == i,
        forall|i: int| 0 <= i < alive.len() ==> #[trigger] alive[i] == pred(i),
    ensures
        surviving(items, alive) == indices.filter(pred).map_values(|i: int| items[i]),
        forall|j: int|
            0 <= j < indices.filter(pred).len() ==> 0 <= #[trigger] indices.filter(pred)[j]
                < items.len(),
    decreases items.len(),
{
    reveal(Seq::filter);
    if items.len() > 0 {
        let shorter = items.drop_last();
        let last = items.len() - 1;
        lemma_surviving_is_filter(shorter, alive.drop_last(), indices.drop_last(), pred);
        let rest = indices.drop_last().filter(pred);
        assert(indices.last() == last && alive.last() == pred(last));
        assert(rest.map_values(|i: int| shorter[i]) =~= rest.map_values(|i: int| items[i]));
        assert(rest.push(last).map_values(|i: int| items[i]) =~= rest.map_values(
            |i: int| items[i],
        ).push(items[last]));
    }
    assert(surviving(items, alive) =~= indices.filter(pred).map_values(|i: int| items[i]));
}

proof fn lemma_surviving_aligned<T, U>(a: Seq<T>, b: Seq<U>, alive: Seq<bool>)
    requires
        a.len() == b.len() == alive.len(),
    ensures
        surviving(a, alive).len() == surviving(b, alive).len(),
    decreases a.len(),
{
    if a.len() > 0 {
        lemma_surviving_aligned(a.drop_last(), b.drop_last(), alive.drop_last());
    }
}

proof fn lemma_surviving_remove<T>(items: Seq<T>, alive: Seq<bool>, i: int)
    requires
        items.len() == alive.len(),
        0 <= i < items.len(),
        !alive[i],
    ensures
        surviving(items, alive) == surviving(items.remove(i), alive.remove(i)),
    decreases items.len(),
{
    if i == items.len() - 1 {
        assert(items.remove(i) =~= items.drop_last());
        assert(alive.remove(i) =~= alive.drop_last());
    } else {
        lemma_surviving_remove(items.drop_last(), alive.drop_last(), i);
        assert(items.remove(i).drop_last() =~= items.drop_last().remove(i));
        assert(alive.remove(i).drop_last() =~= alive.drop_last().remove(i));
        assert(items.remove(i).last() == items.last());
        assert(alive.remove(i).last() == alive.last());
    }
}

proof fn lemma_surviving_twice<T>(items: Seq<T>, alive: Seq<bool>, now: Seq<bool>)
    requires
        items.len() == alive.len() == now.len(),
        forall|i: int| 0 <= i < now.len() && #[trigger] now[i] ==> alive[i],
    ensures
        surviving(surviving(items, alive), surviving(now, alive)) == surviving(items, now),
    decreases items.len(),
{
    if items.len() > 0 {
        let kept = surviving(items.drop_last(), alive.drop_last());
        let left = surviving(now.drop_last(), alive.drop_last());
        lemma_surviving_twice(items.drop_last(), alive.drop_last(), now.drop_last());
        lemma_surviving_aligned(items.drop_last(), now.drop_last(), alive.drop_last());
        assert(now[items.len() - 1] ==> alive[items.len() - 1]);
        assert(kept.push(items.last()).drop_last() =~= kept);
        assert(left.push(now.last()).drop_last() =~= left);
    }
}

proof fn lemma_surviving_all(lens: Seq<usize>)
    ensures
        surviving(lens, Seq::new(lens.len(), |i: int| true)) == lens,
    decreases lens.len(),
{
    let all = Seq::new(lens.len(), |i: int| true);
    if lens.len() > 0 {
        lemma_surviving_all(lens.drop_last());
        assert(all.drop_last() =~= Seq::new(lens.drop_last().len(), |i: int| true));
        assert(lens.drop_last().push(lens.last()) =~= lens);
    }
}

proof fn lemma_surviving_monotone(lens: Seq<usize>, fewer: Seq<bool>, more: Seq<bool>)
    requires
        lens.len() == fewer.len() == more.len(),
        forall|i: int| 0 <= i < fewer.len() && #[trigger] fewer[i] ==> more[i],
    ensures
        total(surviving(lens, fewer)) <= total(surviving(lens, more)),
    decreases lens.len(),
{
    if lens.len() > 0 {
        let few = surviving(lens.drop_last(), fewer.drop_last());
        let many = surviving(lens.drop_last(), more.drop_last());
        lemma_surviving_monotone(lens.drop_last(), fewer.drop_last(), more.drop_last());
        assert(few.push(lens.last()).drop_last() =~= few);
        assert(many.push(lens.last()).drop_last() =~= many);
        assert(fewer[lens.len() - 1] ==> more[lens.len() - 1]);
    }
}

} // verus!
