//! What is set up when Unity loads the plugin and when the graphics device comes up.

use crate::error::AppleError;
use vstd::prelude::*;

verus! {

/// What Unity tells of the graphics device.
#[derive(Clone, Copy, Debug, PartialEq, Eq, Structural)]
pub enum GfxDeviceEventType {
    Initialize,
    Shutdown,
    BeforeReset,
    AfterReset,
}

/// What Unity draws with.
#[derive(Clone, Copy, Debug, PartialEq, Eq, Structural)]
pub enum GfxRenderer {
    Metal,
    Other,
}

/// What is to be done about a device event.
#[derive(Clone, Copy, Debug, PartialEq, Eq, Structural)]
pub enum DeviceAction {
    /// Nothing.
    Ignore,
    /// Reserve an event id, and build all that the blit needs.
    BuildContext,
}

/// What is to be done when the plugin is loaded.
#[derive(Debug, PartialEq)]
pub struct LoadPlan {
    /// Announce the sections of the blit to the profiler.
    pub announce_markers: bool,
    /// On success, listen to device events, and act as if the device had just come up.
    pub proceed: Result<(), AppleError>,
}

/// What is set up so far.
pub struct PluginModel {
    /// Unity's graphics interface is at hand.
    pub graphics: bool,
    /// The profiler is at hand.
    pub profiler: bool,
    /// The event id that was reserved.
    pub event_id: Option<i32>,
    /// What the blit needs is built.
    pub context: bool,
}

impl PluginModel {
    /// Each thing is set up only after what it needs.
    pub open spec fn wf(self) -> bool {
        &&& self.event_id is Some ==> self.graphics
        &&& self.context ==> self.event_id is Some
    }

    /// What is set up before the plugin is loaded.
    pub open spec fn initial() -> PluginModel {
        PluginModel { graphics: false, profiler: false, event_id: None, context: false }
    }

    /// What is set up once the plugin is loaded.
    pub open spec fn loaded(self, profiler_available: bool) -> PluginModel {
        PluginModel {
            graphics: true,
            profiler: self.profiler || profiler_available,
            event_id: self.event_id,
            context: self.context,
        }
    }

    /// What is set up once the event id `id` is reserved.
    pub open spec fn reserved(self, id: i32) -> PluginModel {
        PluginModel { event_id: Some(id), ..self }
    }

    /// What is set up once what the blit needs is built.
    pub open spec fn built(self) -> PluginModel {
        PluginModel { context: true, ..self }
    }

    /// What is to be done about a device event.
    pub open spec fn action(
        self,
        event: GfxDeviceEventType,
        renderer: GfxRenderer,
    ) -> DeviceAction {
        if event is Initialize && renderer is Metal && !self.context {
            DeviceAction::BuildContext
        } else {
            DeviceAction::Ignore
        }
    }

    /// What is set up once the event is dealt with; `id` is the event id that was reserved, if
    /// one was.
    pub open spec fn after_event(
        self,
        event: GfxDeviceEventType,
        renderer: GfxRenderer,
        id: i32,
    ) -> PluginModel {
        if self.action(event, renderer) is BuildContext {
            PluginModel {
                graphics: self.graphics,
                profiler: self.profiler,
                event_id: Some(id),
                context: true,
            }
        } else {
            self
        }
    }

    /// How often the context is built in the course of `events`.
    pub open spec fn builds(self, events: Seq<(GfxDeviceEventType, GfxRenderer, i32)>) -> nat
        decreases events.len(),
    {
        if events.len() == 0 {
            0
        } else {
            let (event, renderer, id) = events[0];
            let rest = self.after_event(event, renderer, id).builds(events.drop_first());
            if self.action(event, renderer) is BuildContext {
                1 + rest
            } else {
                rest
            }
        }
    }

    /// What is set up after `events`.
    pub open spec fn after_events(
        self,
        events: Seq<(GfxDeviceEventType, GfxRenderer, i32)>,
    ) -> PluginModel
        decreases events.len(),
    {
        if events.len() == 0 {
            self
        } else {
            let (event, renderer, id) = events[0];
            self.after_event(event, renderer, id).after_events(events.drop_first())
        }
    }
}

/// What is set up so far.
#[derive(Debug)]
pub struct PluginState {
    graphics: bool,
    profiler: bool,
    event_id: Option<i32>,
    context: bool,
}

impl View for PluginState {
    type V = PluginModel;

    closed spec fn view(&self) -> PluginModel {
        PluginModel {
            graphics: self.graphics,
            profiler: self.profiler,
            event_id: self.event_id,
            context: self.context,
        }
    }
}

impl PluginState {
    pub open spec fn wf(&self) -> bool {
        self@.wf()
    }

    /// Nothing is set up.
    pub fn new() -> (state: Self)
        ensures
            state.wf(),
            state@ == PluginModel::initial(),
    {
        PluginState { graphics: false, profiler: false, event_id: None, context: false }
    }

    /// The blit can be used.
    pub fn is_initialized(&self) -> (initialized: bool)
        ensures
            initialized == self@.context,
    {
        self.context
    }

    /// The event id under which the blit is issued, once it is reserved.
    pub fn event_id(&self) -> (id: Option<i32>)
        ensures
            id == self@.event_id,
    {
        self.event_id
    }

    /// Unity loads the plugin and hands over its graphics interface, which it does only once.
    pub fn unity_plugin_load(&mut self, profiler_available: bool) -> (plan: LoadPlan)
        requires
            old(self).wf(),
        ensures
            final(self).wf(),
            final(self)@ == old(self)@.loaded(profiler_available),
            plan.announce_markers == profiler_available,
            plan.proceed is Ok <==> !old(self)@.graphics,
            plan.proceed matches Err(e) ==> e == AppleError::GlobalStateSetFailed,
    {
        if profiler_available {
            self.profiler = true;
        }
        let proceed = if self.graphics {
            Err(AppleError::GlobalStateSetFailed)
        } else {
            self.graphics = true;
            Ok(())
        };
        LoadPlan { announce_markers: profiler_available, proceed }
    }

    /// What to do about a device event. Only the coming up of a Metal device asks for anything,
    /// and only while the context is not built.
    pub fn on_device_event(&self, event: GfxDeviceEventType, renderer: GfxRenderer) -> (action:
        DeviceAction)
        requires
            event is Initialize ==> self@.graphics,
        ensures
            action == self@.action(event, renderer),
    {
        match event {
            GfxDeviceEventType::Initialize => match renderer {
                GfxRenderer::Metal => {
                    if self.context {
                        // already initialized
                        DeviceAction::Ignore
                    } else {
                        DeviceAction::BuildContext
                    }
                },
                GfxRenderer::Other => DeviceAction::Ignore,
            },
            GfxDeviceEventType::Shutdown => DeviceAction::Ignore,
            GfxDeviceEventType::BeforeReset => DeviceAction::Ignore,
            GfxDeviceEventType::AfterReset => DeviceAction::Ignore,
        }
    }

    /// An event id was reserved for the blit. It is reserved once.
    pub fn event_id_reserved(&mut self, id: i32)
        requires
            old(self).wf(),
            old(self)@.graphics,
            old(self)@.event_id is None,
        ensures
            final(self).wf(),
            final(self)@ == old(self)@.reserved(id),
    {
        self.event_id = Some(id);
    }

    /// All that the blit needs is built. It is built once, after the event id is reserved.
    pub fn context_built(&mut self)
        requires
            old(self).wf(),
            old(self)@.event_id is Some,
            !old(self)@.context,
        ensures
            final(self).wf(),
            final(self)@ == old(self)@.built(),
    {
        self.context = true;
    }
}

/// Doing what a device event asks for leaves what `after_event` says: reserving the event id and
/// building the context, in this order, where that is asked for, and nothing where nothing is.
pub proof fn law_doing_what_is_asked_completes_the_event(
    model: PluginModel,
    event: GfxDeviceEventType,
    renderer: GfxRenderer,
    id: i32,
)
    ensures
        model.action(event, renderer) is BuildContext ==> model.reserved(id).built()
            == model.after_event(event, renderer, id),
        model.action(event, renderer) is Ignore ==> model == model.after_event(
            event,
            renderer,
            id,
        ),
{
}

/// However many events come, in whatever order, the context is built at most once.
pub proof fn law_context_is_built_at_most_once(
    model: PluginModel,
    events: Seq<(GfxDeviceEventType, GfxRenderer, i32)>,
)
    ensures
        model.builds(events) <= 1,
        model.context ==> model.builds(events) == 0,
    decreases events.len(),
{
    if events.len() > 0 {
        let (event, renderer, id) = events[0];
        law_context_is_built_at_most_once(
            model.after_event(event, renderer, id),
            events.drop_first(),
        );
    }
}

/// What is set up stays set up: once the context is built no event takes it, or the event id,
/// away, and loading the plugin again does not either.
pub proof fn law_initialization_lasts(
    model: PluginModel,
    events: Seq<(GfxDeviceEventType, GfxRenderer, i32)>,
    profiler_available: bool,
)
    requires
        model.context,
    ensures
        model.after_events(events) == model,
        model.loaded(profiler_available).context,
        model.loaded(profiler_available).event_id == model.event_id,
    decreases events.len(),
{
    if events.len() > 0 {
        let (event, renderer, id) = events[0];
        law_initialization_lasts(
            model.after_event(event, renderer, id),
            events.drop_first(),
            profiler_available,
        );
    }
}

/// The blit becomes usable exactly when a Metal device comes up.
pub proof fn law_only_metal_initializes(
    model: PluginModel,
    event: GfxDeviceEventType,
    renderer: GfxRenderer,
    id: i32,
)
    requires
        !model.context,
    ensures
        model.after_event(event, renderer, id).context <==> event is Initialize
            && renderer is Metal,
{
}

/// A new plugin has nothing set up. Loading it puts the graphics interface at hand, and the
/// profiler where there is one, and touches nothing else; the sections are announced exactly
/// where there is a profiler; and it proceeds exactly the first time.
pub proof fn law_plugin_is_loaded_once(
    fresh: PluginState,
    state: &mut PluginState,
    profiler_available: bool,
    plan: LoadPlan,
)
    requires
        call_ensures(PluginState::new, (), fresh),
        old(state).wf(),
        call_ensures(PluginState::unity_plugin_load, (state, profiler_available), plan),
    ensures
        fresh.wf(),
        !fresh@.graphics,
        !fresh@.profiler,
        fresh@.event_id is None,
        !fresh@.context,
        call_requires(PluginState::unity_plugin_load, (state, profiler_available)),
        final(state).wf(),
        final(state)@.graphics,
        final(state)@.profiler == (old(state)@.profiler || profiler_available),
        final(state)@.event_id == old(state)@.event_id,
        final(state)@.context == old(state)@.context,
        plan.announce_markers == profiler_available,
        plan.proceed is Ok <==> !old(state)@.graphics,
        plan.proceed matches Err(e) ==> e is GlobalStateSetFailed,
{
}

/// The context is to be built exactly where a Metal device comes up and it is not built yet.
/// Every event is accepted once the graphics interface is at hand.
pub proof fn law_context_is_built_for_metal_only(
    state: PluginState,
    event: GfxDeviceEventType,
    renderer: GfxRenderer,
    action: DeviceAction,
)
    requires
        call_ensures(PluginState::on_device_event, (&state, event, renderer), action),
    ensures
        state@.graphics || event !is Initialize ==> call_requires(
            PluginState::on_device_event,
            (&state, event, renderer),
        ),
        action is BuildContext <==> event is Initialize && renderer is Metal && !state@.context,
{
}

/// The event id that was reserved is the one that is given out, whichever it is, and the blit can
/// be used once the context is built, and not before. Neither step touches what the other set up.
pub proof fn law_reserved_id_is_given_out(
    first: &mut PluginState,
    id: i32,
    second: &mut PluginState,
    between: PluginState,
    usable_between: bool,
    after: PluginState,
    usable: bool,
    given: Option<i32>,
)
    requires
        old(first).wf(),
        old(first)@.graphics,
        old(first)@.event_id is None,
        call_ensures(PluginState::event_id_reserved, (first, id), ()),
        *old(second) == *final(first),
        between == *final(first),
        call_ensures(PluginState::is_initialized, (&between,), usable_between),
        call_ensures(PluginState::context_built, (second,), ()),
        after == *final(second),
        call_ensures(PluginState::is_initialized, (&after,), usable),
        call_ensures(PluginState::event_id, (&after,), given),
    ensures
        call_requires(PluginState::event_id_reserved, (first, id)),
        call_requires(PluginState::context_built, (second,)),
        !usable_between,
        usable,
        given == Some(id),
        after@.graphics == old(first)@.graphics,
        after@.profiler == old(first)@.profiler,
        after.wf(),
{
}

/// Each step of the set-up changes the one thing that it is about.
pub proof fn law_set_up_steps_change_one_thing(model: PluginModel, id: i32, profiler: bool)
    ensures
        model.reserved(id).event_id == Some(id),
        model.reserved(id).graphics == model.graphics,
        model.reserved(id).profiler == model.profiler,
        model.reserved(id).context == model.context,
        model.built().context,
        model.built().event_id == model.event_id,
        model.built().graphics == model.graphics,
        model.built().profiler == model.profiler,
        model.loaded(profiler).graphics,
        model.loaded(profiler).profiler == (model.profiler || profiler),
        model.loaded(profiler).event_id == model.event_id,
        model.loaded(profiler).context == model.context,
{
}

} // verus!
