//! The course of one blit.
//!
//! [`custom_blit`] says what to do first, and [`Blit::advance`] what to do next, given how the
//! last action went. The actions are the caller's to perform.

use crate::error::AppleError;
use crate::metal::geometry::INDEX_COUNT;
use crate::metal::texture::PixelFormat;
use vstd::prelude::*;

verus! {

/// What is to be drawn, and how.
#[derive(Clone, Copy, Debug, PartialEq, Eq, Structural)]
pub struct BlitRequest {
    pub dst_width: u32,
    pub dst_height: u32,
    pub flip_vertically: bool,
    /// The source holds gamma-encoded colors in a format without a color space.
    pub is_gamma_workflow: bool,
}

/// For which size there is a pool of pixel buffers, if there is one.
#[derive(Clone, Copy, Debug, PartialEq, Eq, Structural)]
pub struct PoolCache {
    pub size: Option<PoolSize>,
}

/// The size of the pictures that a pool is for.
#[derive(Clone, Copy, Debug, PartialEq, Eq, Structural)]
pub struct PoolSize {
    pub width: u32,
    pub height: u32,
}

/// Where the texture coordinates `(u, v)` of a screen point go: to
/// `(u_sign * a * u + u_offset, v_sign * b * v + v_offset)`, with the scales `a` and `b` at which
/// the source fits the target.
#[derive(Clone, Copy, Debug, PartialEq, Eq, Structural)]
pub struct UvMapping {
    pub u_sign: i32,
    pub v_sign: i32,
    pub u_offset: i32,
    pub v_offset: i32,
}

/// What is recorded into the command encoder.
#[derive(Clone, Copy, Debug, PartialEq, Eq, Structural)]
pub struct DrawPlan {
    /// The pipeline is the one that draws into textures of this format.
    pub pipeline: PixelFormat,
    pub uv: UvMapping,
    pub index_count: usize,
}

/// A stage of the blit.
#[derive(Clone, Copy, Debug, PartialEq, Eq, Structural)]
pub enum BlitStage {
    Pool,
    Texture,
    CommitUnity,
    Queue,
    CommandBuffer,
    Encoder,
    Record,
    EndEncoding,
    Submit,
    Over,
}

/// How an action went.
#[derive(Clone, Debug, PartialEq)]
pub enum Outcome {
    Done,
    /// What was asked for is not there.
    Missing,
    Failed(AppleError),
}

/// What the caller is to do.
#[derive(Debug, PartialEq)]
pub enum BlitAction {
    /// Make a pool for pictures of this size, in place of the one there is.
    CreatePool { width: u32, height: u32 },
    /// Make the texture that is drawn into.
    CreateTexture { width: usize, height: usize, srgb: bool },
    /// Commit Unity's own command buffer, so that what it draws into the source comes first.
    CommitUnity,
    /// Get Unity's command queue.
    GetQueue,
    /// Get a command buffer from it.
    GetCommandBuffer,
    /// Bind the texture as the target, and get an encoder for it.
    CreateEncoder,
    Record(DrawPlan),
    EndEncoding,
    /// Hand the command buffer over, to be told when it is through.
    Submit,
    /// Nothing more. On success the texture is there once the GPU is through.
    Finish(Result<(), AppleError>),
}

impl BlitStage {
    /// The place of the stage in the course.
    pub open spec fn rank(self) -> int {
        match self {
            BlitStage::Pool => 0,
            BlitStage::Texture => 1,
            BlitStage::CommitUnity => 2,
            BlitStage::Queue => 3,
            BlitStage::CommandBuffer => 4,
            BlitStage::Encoder => 5,
            BlitStage::Record => 6,
            BlitStage::EndEncoding => 7,
            BlitStage::Submit => 8,
            BlitStage::Over => 9,
        }
    }

    /// The stage that follows where this one went well.
    pub open spec fn spec_next(self) -> BlitStage {
        match self {
            BlitStage::Pool => BlitStage::Texture,
            BlitStage::Texture => BlitStage::CommitUnity,
            BlitStage::CommitUnity => BlitStage::Queue,
            BlitStage::Queue => BlitStage::CommandBuffer,
            BlitStage::CommandBuffer => BlitStage::Encoder,
            BlitStage::Encoder => BlitStage::Record,
            BlitStage::Record => BlitStage::EndEncoding,
            BlitStage::EndEncoding => BlitStage::Submit,
            BlitStage::Submit => BlitStage::Over,
            BlitStage::Over => BlitStage::Over,
        }
    }

    /// The stage asks for something that may not be there.
    pub open spec fn may_miss(self) -> bool {
        self is Queue || self is CommandBuffer || self is Encoder
    }

    /// The stage makes something, which may fail.
    pub open spec fn may_fail(self) -> bool {
        self is Pool || self is Texture || self is Record
    }

    /// What it means that what the stage asks for is not there.
    pub open spec fn missing_error(self) -> AppleError {
        if self is Encoder {
            AppleError::RenderCommandEncoderCreationFailed
        } else {
            AppleError::CommandBufferNotAvailable
        }
    }

    /// `outcome` can come of the stage.
    pub open spec fn allows(self, outcome: Outcome) -> bool {
        match outcome {
            Outcome::Done => self !is Over,
            Outcome::Missing => self.may_miss(),
            Outcome::Failed(_) => self.may_fail(),
        }
    }

    fn next(self) -> (next: BlitStage)
        ensures
            next == self.spec_next(),
    {
        match self {
            BlitStage::Pool => BlitStage::Texture,
            BlitStage::Texture => BlitStage::CommitUnity,
            BlitStage::CommitUnity => BlitStage::Queue,
            BlitStage::Queue => BlitStage::CommandBuffer,
            BlitStage::CommandBuffer => BlitStage::Encoder,
            BlitStage::Encoder => BlitStage::Record,
            BlitStage::Record => BlitStage::EndEncoding,
            BlitStage::EndEncoding => BlitStage::Submit,
            BlitStage::Submit => BlitStage::Over,
            BlitStage::Over => BlitStage::Over,
        }
    }
}

impl UvMapping {
    pub open spec fn spec_for(flip_vertically: bool) -> UvMapping {
        if flip_vertically {
            UvMapping { u_sign: 1, v_sign: -1i32, u_offset: 0, v_offset: 1 }
        } else {
            UvMapping { u_sign: 1, v_sign: 1, u_offset: 0, v_offset: 0 }
        }
    }

    /// The mapping that turns the picture upside down, or leaves it as it is.
    pub fn for_flip(flip_vertically: bool) -> (mapping: Self)
        ensures
            mapping == Self::spec_for(flip_vertically),
    {
        if flip_vertically {
            UvMapping { u_sign: 1, v_sign: -1, u_offset: 0, v_offset: 1 }
        } else {
            UvMapping { u_sign: 1, v_sign: 1, u_offset: 0, v_offset: 0 }
        }
    }

    /// Where `u` goes at scale `a`, all in units of `1 / unit`: `scaled` stands for `a * u`.
    pub open spec fn map_u(self, scaled: int, unit: int) -> int {
        self.u_sign * scaled + self.u_offset * unit
    }

    /// Where `v` goes at scale `b`, all in units of `1 / unit`: `scaled` stands for `b * v`.
    pub open spec fn map_v(self, scaled: int, unit: int) -> int {
        self.v_sign * scaled + self.v_offset * unit
    }
}

impl PoolCache {
    /// There is a pool, and it is for pictures of the requested size.
    pub open spec fn serves(self, request: BlitRequest) -> bool {
        self.size matches Some(size) && size.width == request.dst_width && size.height
            == request.dst_height
    }

    /// The cache once there is a pool for the requested size.
    pub open spec fn with_pool_for(request: BlitRequest) -> PoolCache {
        PoolCache {
            size: Some(PoolSize { width: request.dst_width, height: request.dst_height }),
        }
    }

    /// No pool has been made yet.
    pub fn new() -> (cache: Self)
        ensures
            cache.size is None,
    {
        PoolCache { size: None }
    }

    /// A pool has to be made: there is none, or it is for pictures of another size.
    pub fn needs_new_pool(&self, request: &BlitRequest) -> (needed: bool)
        ensures
            needed <==> !self.serves(*request),
    {
        match &self.size {
            Some(size) => size.width != request.dst_width || size.height != request.dst_height,
            None => true,
        }
    }
}

/// A blit on its way: what was asked for, for which size there is a pool, and the stage that the
/// caller is at.
pub struct BlitState {
    pub request: BlitRequest,
    pub cache: PoolCache,
    pub stage: BlitStage,
}

/// The pixels of the target are in sRGB unless the workflow is gamma.
pub open spec fn target_is_srgb(request: BlitRequest) -> bool {
    !request.is_gamma_workflow
}

/// What is recorded for `request`.
pub open spec fn draw_plan(request: BlitRequest) -> DrawPlan {
    DrawPlan {
        pipeline: PixelFormat::spec_for(target_is_srgb(request)),
        uv: UvMapping::spec_for(request.flip_vertically),
        index_count: INDEX_COUNT,
    }
}

impl BlitState {
    /// A blit that is about to begin.
    pub open spec fn start(request: BlitRequest, cache: PoolCache) -> BlitState {
        BlitState {
            request,
            cache,
            stage: if cache.serves(request) {
                BlitStage::Texture
            } else {
                BlitStage::Pool
            },
        }
    }

    /// What the stage asks of the caller.
    pub open spec fn action(self) -> BlitAction {
        match self.stage {
            BlitStage::Pool => BlitAction::CreatePool {
                width: self.request.dst_width,
                height: self.request.dst_height,
            },
            BlitStage::Texture => BlitAction::CreateTexture {
                width: self.request.dst_width as usize,
                height: self.request.dst_height as usize,
                srgb: target_is_srgb(self.request),
            },
            BlitStage::CommitUnity => BlitAction::CommitUnity,
            BlitStage::Queue => BlitAction::GetQueue,
            BlitStage::CommandBuffer => BlitAction::GetCommandBuffer,
            BlitStage::Encoder => BlitAction::CreateEncoder,
            BlitStage::Record => BlitAction::Record(draw_plan(self.request)),
            BlitStage::EndEncoding => BlitAction::EndEncoding,
            BlitStage::Submit => BlitAction::Submit,
            BlitStage::Over => BlitAction::Finish(Ok(())),
        }
    }

    /// The blit once the stage went as `outcome` says.
    pub open spec fn after(self, outcome: Outcome) -> BlitState {
        match outcome {
            Outcome::Done => BlitState {
                request: self.request,
                cache: if self.stage is Pool {
                    PoolCache::with_pool_for(self.request)
                } else {
                    self.cache
                },
                stage: self.stage.spec_next(),
            },
            _ => BlitState { request: self.request, cache: self.cache, stage: BlitStage::Over },
        }
    }

    /// What the caller is to do then.
    pub open spec fn reply(self, outcome: Outcome) -> BlitAction {
        match outcome {
            Outcome::Done => self.after(outcome).action(),
            Outcome::Missing => BlitAction::Finish(Err(self.stage.missing_error())),
            Outcome::Failed(e) => BlitAction::Finish(Err(e)),
        }
    }

    /// The stages that the caller goes through from here on if they go as `outcomes` says, in
    /// turn.
    pub open spec fn course(self, outcomes: Seq<Outcome>) -> Seq<BlitStage>
        decreases 9 - self.stage.rank(),
    {
        if self.stage is Over {
            seq![]
        } else if outcomes.len() == 0 {
            seq![self.stage]
        } else {
            seq![self.stage] + self.after(outcomes[0]).course(outcomes.drop_first())
        }
    }
}

/// A blit on its way.
pub struct Blit {
    request: BlitRequest,
    cache: PoolCache,
    stage: BlitStage,
}

impl View for Blit {
    type V = BlitState;

    closed spec fn view(&self) -> BlitState {
        BlitState { request: self.request, cache: self.cache, stage: self.stage }
    }
}

/// What a blit has to go on: nothing before the Metal device is set up; then the pool cache,
/// behind a lock that can be broken.
pub open spec fn blit_error(context: Option<Result<PoolCache, String>>) -> Option<AppleError> {
    match context {
        None => Some(AppleError::MetalNotInitialized),
        Some(Err(reason)) => Some(AppleError::Other(reason)),
        Some(Ok(_)) => None,
    }
}

/// Begins a blit: the blit, and what to do first.
pub fn custom_blit(
    context: Option<Result<PoolCache, String>>,
    request: BlitRequest,
) -> (result: Result<(Blit, BlitAction), AppleError>)
    ensures
        match blit_error(context) {
            Some(error) => result matches Err(e) && e == error,
            None => {
                &&& result matches Ok((blit, action))
                &&& blit@ == BlitState::start(request, context->0->Ok_0)
                &&& action == blit@.action()
            },
        },
{
    match context {
        None => Err(AppleError::MetalNotInitialized),
        Some(Err(reason)) => Err(AppleError::Other(reason)),
        Some(Ok(cache)) => {
            let stage = if cache.needs_new_pool(&request) {
                BlitStage::Pool
            } else {
                BlitStage::Texture
            };
            let blit = Blit { request, cache, stage };
            let action = blit.action();
            Ok((blit, action))
        },
    }
}

impl Blit {
    /// For which size there is a pool, as far as the blit has come.
    pub fn pool_cache(&self) -> (cache: PoolCache)
        ensures
            cache == self@.cache,
    {
        self.cache
    }

    fn action(&self) -> (action: BlitAction)
        ensures
            action == self@.action(),
    {
        match self.stage {
            BlitStage::Pool => BlitAction::CreatePool {
                width: self.request.dst_width,
                height: self.request.dst_height,
            },
            BlitStage::Texture => BlitAction::CreateTexture {
                width: self.request.dst_width as usize,
                height: self.request.dst_height as usize,
                srgb: !self.request.is_gamma_workflow,
            },
            BlitStage::CommitUnity => BlitAction::CommitUnity,
            BlitStage::Queue => BlitAction::GetQueue,
            BlitStage::CommandBuffer => BlitAction::GetCommandBuffer,
            BlitStage::Encoder => BlitAction::CreateEncoder,
            BlitStage::Record => BlitAction::Record(
                DrawPlan {
                    pipeline: PixelFormat::for_srgb(!self.request.is_gamma_workflow),
                    uv: UvMapping::for_flip(self.request.flip_vertically),
                    index_count: INDEX_COUNT,
                },
            ),
            BlitStage::EndEncoding => BlitAction::EndEncoding,
            BlitStage::Submit => BlitAction::Submit,
            BlitStage::Over => BlitAction::Finish(Ok(())),
        }
    }

    /// What to do next, given how the last action went.
    pub fn advance(&mut self, outcome: Outcome) -> (action: BlitAction)
        requires
            old(self)@.stage.allows(outcome),
        ensures
            final(self)@ == old(self)@.after(outcome),
            action == old(self)@.reply(outcome),
    {
        let stage = self.stage;
        match outcome {
            Outcome::Done => {
                if let BlitStage::Pool = stage {
                    self.cache = PoolCache {
                        size: Some(
                            PoolSize {
                                width: self.request.dst_width,
                                height: self.request.dst_height,
                            },
                        ),
                    };
                }
                self.stage = stage.next();
                self.action()
            },
            Outcome::Missing => {
                self.stage = BlitStage::Over;
                if let BlitStage::Encoder = stage {
                    BlitAction::Finish(Err(AppleError::RenderCommandEncoderCreationFailed))
                } else {
                    BlitAction::Finish(Err(AppleError::CommandBufferNotAvailable))
                }
            },
            Outcome::Failed(e) => {
                self.stage = BlitStage::Over;
                BlitAction::Finish(Err(e))
            },
        }
    }
}

/// The stages are gone through one after the other, none left out and none twice, and a stage is
/// reached only if every one before it went well.
pub proof fn law_stages_in_order(state: BlitState, outcomes: Seq<Outcome>, i: int)
    requires
        0 <= i < state.course(outcomes).len(),
    ensures
        state.course(outcomes)[i].rank() == state.stage.rank() + i,
        i <= outcomes.len(),
        forall|j: int| 0 <= j < i ==> #[trigger] outcomes[j] is Done,
    decreases 9 - state.stage.rank(),
{
    if i > 0 {
        let next = state.after(outcomes[0]);
        assert(state.course(outcomes)[i] == next.course(outcomes.drop_first())[i - 1]);
        law_stages_in_order(next, outcomes.drop_first(), i - 1);
        assert forall|j: int| 0 <= j < i implies #[trigger] outcomes[j] is Done by {
            if j > 0 {
                assert(outcomes.drop_first()[j - 1] == outcomes[j]);
            }
        }
    }
}

/// What is submitted is drawn in full, and drawn after what Unity had to draw: a blit that comes
/// to its submission has committed Unity's command buffer, then got a command buffer of its own,
/// then an encoder, then recorded, and has ended the encoding, all of it with success.
pub proof fn law_submission_comes_last(
    request: BlitRequest,
    cache: PoolCache,
    outcomes: Seq<Outcome>,
    at: int,
)
    requires
        0 <= at < BlitState::start(request, cache).course(outcomes).len(),
        BlitState::start(request, cache).course(outcomes)[at] is Submit,
    ensures
        at + 1 == BlitState::start(request, cache).course(outcomes).len(),
        at >= 7,
        ({
            let course = BlitState::start(request, cache).course(outcomes);
            &&& course[at - 6] is CommitUnity && outcomes[at - 6] is Done
            &&& course[at - 4] is CommandBuffer && outcomes[at - 4] is Done
            &&& course[at - 3] is Encoder && outcomes[at - 3] is Done
            &&& course[at - 2] is Record && outcomes[at - 2] is Done
            &&& course[at - 1] is EndEncoding && outcomes[at - 1] is Done
        }),
{
    let start = BlitState::start(request, cache);
    let course = start.course(outcomes);
    law_stages_in_order(start, outcomes, at);
    law_stages_in_order(start, outcomes, at - 6);
    law_stages_in_order(start, outcomes, at - 4);
    law_stages_in_order(start, outcomes, at - 3);
    law_stages_in_order(start, outcomes, at - 2);
    law_stages_in_order(start, outcomes, at - 1);
    if at + 1 < course.len() {
        law_stages_in_order(start, outcomes, at + 1);
        lemma_course_is_not_over(start, outcomes, at + 1);
    }
    assert(outcomes[at - 6] is Done && outcomes[at - 4] is Done && outcomes[at - 3] is Done
        && outcomes[at - 2] is Done && outcomes[at - 1] is Done);
}

proof fn lemma_course_is_not_over(state: BlitState, outcomes: Seq<Outcome>, i: int)
    requires
        0 <= i < state.course(outcomes).len(),
    ensures
        state.course(outcomes)[i] !is Over,
    decreases 9 - state.stage.rank(),
{
    if i > 0 {
        let next = state.after(outcomes[0]);
        assert(state.course(outcomes)[i] == next.course(outcomes.drop_first())[i - 1]);
        lemma_course_is_not_over(next, outcomes.drop_first(), i - 1);
    }
}

/// An action that does not succeed is the last one, and what it came to is what the blit
/// reports. The pool stays as it is.
pub proof fn law_failure_ends_the_blit(state: BlitState, outcome: Outcome)
    requires
        state.stage.allows(outcome),
        outcome !is Done,
    ensures
        state.after(outcome).stage is Over,
        state.after(outcome).cache == state.cache,
        state.reply(outcome) matches BlitAction::Finish(Err(e)) && (outcome matches Outcome::Failed(
            reason,
        ) ==> e == reason),
{
}

/// A pool is made exactly where there is none for the requested size.
pub proof fn law_pool_is_made_on_demand(request: BlitRequest, cache: PoolCache)
    ensures
        BlitState::start(request, cache).stage is Pool <==> !cache.serves(request),
        BlitState::start(request, cache).stage is Pool || BlitState::start(
            request,
            cache,
        ).stage is Texture,
{
}

/// Once a blit has its pool, the pool is for the requested size, and stays so to the end of the
/// blit; the next blit of that size makes none.
pub proof fn law_pool_is_reused(
    request: BlitRequest,
    cache: PoolCache,
    outcome: Outcome,
    later: Seq<Outcome>,
    next: BlitRequest,
)
    requires
        BlitState::start(request, cache).stage is Pool ==> outcome is Done,
        next.dst_width == request.dst_width,
        next.dst_height == request.dst_height,
    ensures
        ({
            let start = BlitState::start(request, cache);
            let ready = if start.stage is Pool {
                start.after(outcome)
            } else {
                start
            };
            let left = ready.cache_after(later);
            &&& left == PoolCache::with_pool_for(request)
            &&& BlitState::start(next, left).stage is Texture
        }),
{
    let start = BlitState::start(request, cache);
    let ready = if start.stage is Pool {
        start.after(outcome)
    } else {
        start
    };
    assert(ready.cache == PoolCache::with_pool_for(request));
    lemma_cache_stays(ready, later);
}

impl BlitState {
    /// For which size there is a pool once the stages from here on went as `outcomes` says.
    pub open spec fn cache_after(self, outcomes: Seq<Outcome>) -> PoolCache
        decreases outcomes.len(),
    {
        if outcomes.len() == 0 {
            self.cache
        } else {
            self.after(outcomes[0]).cache_after(outcomes.drop_first())
        }
    }
}

proof fn lemma_cache_stays(state: BlitState, outcomes: Seq<Outcome>)
    requires
        state.stage !is Pool,
    ensures
        state.cache_after(outcomes) == state.cache,
    decreases outcomes.len(),
{
    if outcomes.len() > 0 {
        lemma_cache_stays(state.after(outcomes[0]), outcomes.drop_first());
    }
}

/// The pipeline draws into textures of the very format that the target has.
pub proof fn law_pipeline_fits_the_target(request: BlitRequest, cache: PoolCache)
    ensures
        ({
            let texture = BlitState { request, cache, stage: BlitStage::Texture };
            let record = BlitState { request, cache, stage: BlitStage::Record };
            &&& texture.action() matches BlitAction::CreateTexture { width, height, srgb }
            &&& record.action() matches BlitAction::Record(plan)
            &&& plan.pipeline == PixelFormat::spec_for(srgb)
        }),
{
}

/// Two blits that differ in the flip alone draw the same area, mirrored. Let the scales be any
/// fractions `a / q` and `b / q`, and `(u / d, v / d)` the coordinates of any screen point. Both
/// blits sample the same column of the source, and where one samples a row the other samples the
/// row as far from the opposite edge; so the point shows the source in both or in neither. The
/// pipeline is the same.
pub proof fn law_flip_mirrors_at_any_scale(
    request: BlitRequest,
    flipped: BlitRequest,
    u: int,
    v: int,
    d: int,
    a: int,
    b: int,
    q: int,
)
    requires
        !request.flip_vertically,
        flipped == (BlitRequest { flip_vertically: true, ..request }),
        d > 0,
        q > 0,
    ensures
        ({
            let unit = q * d;
            let plain = draw_plan(request);
            let mirrored = draw_plan(flipped);
            &&& plain.pipeline == mirrored.pipeline
            &&& plain.uv.map_u(a * u, unit) == a * u
            &&& plain.uv.map_v(b * v, unit) == b * v
            &&& mirrored.uv.map_u(a * u, unit) == plain.uv.map_u(a * u, unit)
            &&& mirrored.uv.map_v(b * v, unit) == unit - plain.uv.map_v(b * v, unit)
            &&& 0 <= mirrored.uv.map_v(b * v, unit) <= unit <==> 0 <= plain.uv.map_v(b * v, unit)
                <= unit
        }),
{
    let unit = q * d;
    let column = a * u;
    let row = b * v;
    assert(1 * column + 0 * unit == column);
    assert(1 * row + 0 * unit == row);
    assert(-1 * row + 1 * unit == unit - row);
}

/// Flipping twice gives every coordinate back.
pub proof fn law_flip_is_its_own_inverse(v: int, unit: int)
    ensures
        UvMapping::spec_for(true).map_v(UvMapping::spec_for(true).map_v(v, unit), unit) == v,
{
}

/// A blit begins exactly where the Metal device is set up and the lock on its pool is whole; else
/// the error says which is not. It begins with the pool where there is none for the very size that
/// is requested, and with the texture, of that size, where there is. Any request is accepted.
pub proof fn law_blit_begins_with_what_is_needed(
    context: Option<Result<PoolCache, String>>,
    request: BlitRequest,
    result: Result<(Blit, BlitAction), AppleError>,
)
    requires
        call_ensures(custom_blit, (context, request), result),
    ensures
        call_requires(custom_blit, (context, request)),
        match context {
            None => result matches Err(e) && e is MetalNotInitialized,
            Some(Err(reason)) => {
                &&& result matches Err(e)
                &&& e matches AppleError::Other(text)
                &&& text == reason
            },
            Some(Ok(cache)) => {
                &&& result matches Ok((blit, action))
                &&& blit@.request == request
                &&& blit@.cache == cache
                &&& if cache.size matches Some(size) && size.width == request.dst_width
                    && size.height == request.dst_height {
                    &&& blit@.stage is Texture
                    &&& action matches BlitAction::CreateTexture { width, height, srgb }
                    &&& width == request.dst_width
                    &&& height == request.dst_height
                    &&& srgb == !request.is_gamma_workflow
                } else {
                    &&& blit@.stage is Pool
                    &&& action matches BlitAction::CreatePool { width, height }
                    &&& width == request.dst_width
                    &&& height == request.dst_height
                }
            },
        },
{
}

/// Where an action went well, the next one follows: after the pool the texture, Unity's commit,
/// the queue, the command buffer, the encoder, the recording, the end of the encoding and the
/// submission, and then the blit has succeeded. What was requested stays what it was from one
/// action to the next.
pub proof fn law_success_leads_to_the_next_action(blit: &mut Blit, action: BlitAction)
    requires
        call_ensures(Blit::advance, (blit, Outcome::Done), action),
    ensures
        old(blit)@.stage !is Over ==> call_requires(Blit::advance, (blit, Outcome::Done)),
        final(blit)@.request == old(blit)@.request,
        match old(blit)@.stage {
            BlitStage::Pool => final(blit)@.stage is Texture && action is CreateTexture,
            BlitStage::Texture => final(blit)@.stage is CommitUnity && action is CommitUnity,
            BlitStage::CommitUnity => final(blit)@.stage is Queue && action is GetQueue,
            BlitStage::Queue => final(blit)@.stage is CommandBuffer && action is GetCommandBuffer,
            BlitStage::CommandBuffer => final(blit)@.stage is Encoder && action is CreateEncoder,
            BlitStage::Encoder => final(blit)@.stage is Record && action is Record,
            BlitStage::Record => final(blit)@.stage is EndEncoding && action is EndEncoding,
            BlitStage::EndEncoding => final(blit)@.stage is Submit && action is Submit,
            BlitStage::Submit => {
                &&& final(blit)@.stage is Over
                &&& action matches BlitAction::Finish(result)
                &&& result is Ok
            },
            BlitStage::Over => final(blit)@.stage is Over,
        },
{
}

/// The texture that is drawn into has the width and the height that are requested, neither
/// swapped nor rounded: the very size that the pool was made for and that it is remembered for.
/// Its colors are in sRGB unless the workflow is gamma. So it is for every request.
pub proof fn law_texture_has_the_requested_size(
    blit: &mut Blit,
    action: BlitAction,
    cache: PoolCache,
    after: Blit,
)
    requires
        old(blit)@.stage is Pool,
        call_ensures(Blit::advance, (blit, Outcome::Done), action),
        after == *final(blit),
        call_ensures(Blit::pool_cache, (&after,), cache),
    ensures
        action matches BlitAction::CreateTexture { width, height, srgb } && {
            &&& width == old(blit)@.request.dst_width
            &&& height == old(blit)@.request.dst_height
            &&& srgb == !old(blit)@.request.is_gamma_workflow
            &&& cache.size matches Some(size) && size.width == width && size.height == height
        },
        old(blit)@.action() matches BlitAction::CreatePool { width, height } && {
            &&& width == old(blit)@.request.dst_width
            &&& height == old(blit)@.request.dst_height
        },
{
}

/// The blit remembers the pool that it had before, whatever comes of the actions that follow the
/// making of a pool, and whatever comes of the making of one that fails.
pub proof fn law_pool_is_remembered(
    blit: &mut Blit,
    outcome: Outcome,
    action: BlitAction,
    before: Blit,
    after: Blit,
    cache: PoolCache,
    later: PoolCache,
)
    requires
        call_ensures(Blit::advance, (blit, outcome), action),
        !(old(blit)@.stage is Pool && outcome is Done),
        before == *old(blit),
        after == *final(blit),
        call_ensures(Blit::pool_cache, (&before,), cache),
        call_ensures(Blit::pool_cache, (&after,), later),
    ensures
        later == cache,
{
}

/// What is recorded, for every request: all three indices of the triangle, with the pipeline for
/// sRGB unless the workflow is gamma, each column of the source where it is, and each row where it
/// is or, flipped, as far from the opposite edge.
pub proof fn law_recording_follows_the_request(blit: &mut Blit, action: BlitAction)
    requires
        old(blit)@.stage is Encoder,
        call_ensures(Blit::advance, (blit, Outcome::Done), action),
    ensures
        action matches BlitAction::Record(plan) && {
            &&& plan.index_count == 3
            &&& plan.pipeline is Bgra8Unorm <==> old(blit)@.request.is_gamma_workflow
            &&& plan.uv.u_sign == 1
            &&& plan.uv.u_offset == 0
            &&& old(blit)@.request.flip_vertically ==> plan.uv.v_sign == -1 && plan.uv.v_offset
                == 1
            &&& !old(blit)@.request.flip_vertically ==> plan.uv.v_sign == 1 && plan.uv.v_offset
                == 0
        },
{
}

/// An action that does not succeed ends the blit, at every stage and for every request: with the
/// error that it failed with; or, where what it asked for is not there, with the one that says
/// what is missing.
pub proof fn law_failure_is_what_is_reported(blit: &mut Blit, outcome: Outcome, action: BlitAction)
    requires
        outcome !is Done,
        call_ensures(Blit::advance, (blit, outcome), action),
    ensures
        outcome is Missing && (old(blit)@.stage is Queue || old(blit)@.stage is CommandBuffer
            || old(blit)@.stage is Encoder) ==> call_requires(Blit::advance, (blit, outcome)),
        outcome is Failed && (old(blit)@.stage is Pool || old(blit)@.stage is Texture || old(
            blit,
        )@.stage is Record) ==> call_requires(Blit::advance, (blit, outcome)),
        final(blit)@.stage is Over,
        final(blit)@.request == old(blit)@.request,
        action matches BlitAction::Finish(Err(reported)) && {
            &&& outcome matches Outcome::Failed(reason) ==> reported == reason
            &&& outcome is Missing && old(blit)@.stage is Encoder
                ==> reported is RenderCommandEncoderCreationFailed
            &&& outcome is Missing && old(blit)@.stage !is Encoder
                ==> reported is CommandBufferNotAvailable
        },
{
}

/// A pool is needed unless there is one for exactly the requested width and height, and a new
/// cache has none.
pub proof fn law_only_a_pool_of_the_same_size_serves(
    cache: PoolCache,
    request: BlitRequest,
    needed: bool,
    fresh: PoolCache,
)
    requires
        call_ensures(PoolCache::needs_new_pool, (&cache, &request), needed),
        call_ensures(PoolCache::new, (), fresh),
    ensures
        call_requires(PoolCache::needs_new_pool, (&cache, &request)),
        needed == match cache.size {
            Some(size) => !(size.width == request.dst_width && size.height == request.dst_height),
            None => true,
        },
        fresh.size is None,
{
}

/// The two mappings: a flip reverses the rows and nothing else.
pub proof fn law_flip_reverses_rows_only(
    flip: bool,
    mapping: UvMapping,
    unflipped: UvMapping,
)
    requires
        call_ensures(UvMapping::for_flip, (flip,), mapping),
        call_ensures(UvMapping::for_flip, (false,), unflipped),
    ensures
        unflipped.u_sign == 1,
        unflipped.v_sign == 1,
        unflipped.u_offset == 0,
        unflipped.v_offset == 0,
        mapping.u_sign == unflipped.u_sign,
        mapping.u_offset == unflipped.u_offset,
        flip ==> mapping.v_sign == -unflipped.v_sign && mapping.v_offset == 1
            - unflipped.v_offset,
{
}

} // verus!
