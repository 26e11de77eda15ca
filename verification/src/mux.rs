//! Muxing with FFmpeg: the command line, the pipes that the encoded streams go into, and what
//! is written to them.
//!
//! The process and its pipes are not this module's: `I` stands for the writing end of a pipe and
//! `C` for the process, and the caller performs the [`InputAction`]s one by one and reports how
//! each went.

use crate::error::FFmpegError;
use vstd::prelude::*;

verus! {

/// A step on the writing end of a pipe.
#[derive(Clone, Debug, PartialEq)]
pub enum InputAction {
    /// Write all of these bytes.
    Write(Vec<u8>),
    Flush,
    /// Say that nothing follows.
    Shutdown,
}

/// What is to be done next on the way through a list of steps.
#[derive(Debug, PartialEq)]
pub enum InputProgress {
    Perform(InputAction),
    Finished(Result<(), FFmpegError>),
}

/// The steps that are still to be taken.
pub struct InputSteps {
    pending: Vec<InputAction>,
}

impl View for InputSteps {
    type V = Seq<InputAction>;

    closed spec fn view(&self) -> Seq<InputAction> {
        self.pending@
    }
}

/// What follows while `pending` is to be taken and the last step went as `last` says.
pub open spec fn progress(
    pending: Seq<InputAction>,
    last: Result<(), FFmpegError>,
) -> InputProgress {
    match last {
        Ok(_) => if pending.len() == 0 {
            InputProgress::Finished(Ok(()))
        } else {
            InputProgress::Perform(pending[0])
        },
        Err(e) => InputProgress::Finished(Err(e)),
    }
}

/// What is still to be taken after that.
pub open spec fn remaining(
    pending: Seq<InputAction>,
    last: Result<(), FFmpegError>,
) -> Seq<InputAction> {
    if last is Ok && pending.len() > 0 {
        pending.drop_first()
    } else {
        seq![]
    }
}

/// The steps that are taken from `pending` on if the last step went as `last` says and those
/// taken go as `outcomes` says, in turn.
pub open spec fn trace(
    pending: Seq<InputAction>,
    last: Result<(), FFmpegError>,
    outcomes: Seq<Result<(), FFmpegError>>,
) -> Seq<InputAction>
    decreases pending.len(),
{
    match progress(pending, last) {
        InputProgress::Finished(_) => seq![],
        InputProgress::Perform(action) => if outcomes.len() == 0 {
            seq![action]
        } else {
            seq![action] + trace(
                remaining(pending, last),
                outcomes[0],
                outcomes.drop_first(),
            )
        },
    }
}

/// What is reported in the end; nothing yet if `outcomes` stops before that.
pub open spec fn outcome(
    pending: Seq<InputAction>,
    last: Result<(), FFmpegError>,
    outcomes: Seq<Result<(), FFmpegError>>,
) -> Option<Result<(), FFmpegError>>
    decreases pending.len(),
{
    match progress(pending, last) {
        InputProgress::Finished(result) => Some(result),
        InputProgress::Perform(_) => if outcomes.len() == 0 {
            None
        } else {
            outcome(remaining(pending, last), outcomes[0], outcomes.drop_first())
        },
    }
}

/// The bytes that the steps in `actions` write, one after the other.
pub open spec fn written(actions: Seq<InputAction>) -> Seq<u8>
    decreases actions.len(),
{
    if actions.len() == 0 {
        seq![]
    } else {
        written(actions.drop_last()) + match actions.last() {
            InputAction::Write(bytes) => bytes@,
            InputAction::Flush => seq![],
            InputAction::Shutdown => seq![],
        }
    }
}

impl InputSteps {
    /// The next step, given how the last one went; before the first, `Ok`. A failed step is the
    /// last one: its error is reported and the rest is dropped.
    pub fn next(&mut self, last: Result<(), FFmpegError>) -> (next: InputProgress)
        ensures
            next == progress(old(self)@, last),
            final(self)@ == remaining(old(self)@, last),
    {
        match last {
            Ok(_) => {
                if self.pending.len() == 0 {
                    InputProgress::Finished(Ok(()))
                } else {
                    let action = self.pending.remove(0);
                    assert(self@ =~= old(self)@.drop_first());
                    InputProgress::Perform(action)
                }
            },
            Err(e) => {
                self.pending.clear();
                InputProgress::Finished(Err(e))
            },
        }
    }
}

/// A piece of encoded video.
#[derive(Clone, Debug, PartialEq)]
pub enum VideoEncodedData {
    ParameterSet(Vec<u8>),
    Slice { payload: Vec<u8> },
}

/// A piece of encoded audio: the header that frames it, and what it frames.
#[derive(Clone, Debug, PartialEq)]
pub struct AudioEncodedData {
    pub header: Vec<u8>,
    pub payload: Vec<u8>,
}

impl VideoEncodedData {
    /// The bytes of the piece, whichever kind it is.
    pub open spec fn bytes(self) -> Vec<u8> {
        match self {
            VideoEncodedData::ParameterSet(payload) => payload,
            VideoEncodedData::Slice { payload } => payload,
        }
    }

    /// The steps that pass the piece on.
    pub open spec fn steps(self) -> Seq<InputAction> {
        seq![InputAction::Write(self.bytes()), InputAction::Flush]
    }
}

impl AudioEncodedData {
    /// The steps that pass the piece on.
    pub open spec fn steps(self) -> Seq<InputAction> {
        seq![InputAction::Write(self.header), InputAction::Write(self.payload), InputAction::Flush]
    }
}

pub struct FFmpegMuxerVideoInput<I> {
    input: Option<I>,
}

pub struct FFmpegMuxerAudioInput<I> {
    input: Option<I>,
}

impl<I> View for FFmpegMuxerVideoInput<I> {
    type V = Option<I>;

    closed spec fn view(&self) -> Option<I> {
        self.input
    }
}

impl<I> View for FFmpegMuxerAudioInput<I> {
    type V = Option<I>;

    closed spec fn view(&self) -> Option<I> {
        self.input
    }
}

impl<I> FFmpegMuxerVideoInput<I> {
    pub fn new(input: Option<I>) -> (created: Self)
        ensures
            created@ == input,
    {
        FFmpegMuxerVideoInput { input }
    }

    /// The pipe that `data` goes into, and the steps that pass it on.
    pub fn push(&mut self, data: VideoEncodedData) -> (result: Result<
        (&mut I, InputSteps),
        FFmpegError,
    >)
        ensures
            result is Ok <==> old(self)@ is Some,
            result matches Ok((input, steps)) ==> {
                &&& old(self)@ == Some(*input)
                &&& final(self)@ == Some(*final(input))
                &&& steps@ == data.steps()
            },
            result matches Err(e) ==> e == FFmpegError::InputNotAvailable && final(self)@ == old(
                self,
            )@,
    {
        match &mut self.input {
            Some(input) => {
                let payload = match data {
                    VideoEncodedData::ParameterSet(payload) => payload,
                    VideoEncodedData::Slice { payload } => payload,
                };
                let steps = InputSteps {
                    pending: vec![InputAction::Write(payload), InputAction::Flush],
                };
                assert(steps@ =~= data.steps());
                Ok((input, steps))
            },
            None => Err(FFmpegError::InputNotAvailable),
        }
    }

    /// The pipe, and the step that ends it. It is closed where the caller drops it.
    pub fn finish(self) -> (result: Result<(I, InputSteps), FFmpegError>)
        ensures
            result is Ok <==> self@ is Some,
            result matches Ok((input, steps)) ==> self@ == Some(input) && steps@ == seq![
                InputAction::Shutdown,
            ],
            result matches Err(e) ==> e == FFmpegError::InputNotAvailable,
    {
        match self.input {
            Some(input) => {
                let steps = InputSteps { pending: vec![InputAction::Shutdown] };
                assert(steps@ =~= seq![InputAction::Shutdown]);
                Ok((input, steps))
            },
            None => Err(FFmpegError::InputNotAvailable),
        }
    }
}

impl<I> FFmpegMuxerAudioInput<I> {
    pub fn new(input: Option<I>) -> (created: Self)
        ensures
            created@ == input,
    {
        FFmpegMuxerAudioInput { input }
    }

    /// The pipe that `data` goes into, and the steps that pass it on.
    pub fn push(&mut self, data: AudioEncodedData) -> (result: Result<
        (&mut I, InputSteps),
        FFmpegError,
    >)
        ensures
            result is Ok <==> old(self)@ is Some,
            result matches Ok((input, steps)) ==> {
                &&& old(self)@ == Some(*input)
                &&& final(self)@ == Some(*final(input))
                &&& steps@ == data.steps()
            },
            result matches Err(e) ==> e == FFmpegError::InputNotAvailable && final(self)@ == old(
                self,
            )@,
    {
        match &mut self.input {
            Some(input) => {
                let steps = InputSteps {
                    pending: vec![
                        InputAction::Write(data.header),
                        InputAction::Write(data.payload),
                        InputAction::Flush,
                    ],
                };
                assert(steps@ =~= data.steps());
                Ok((input, steps))
            },
            None => Err(FFmpegError::InputNotAvailable),
        }
    }

    /// The pipe, and the step that ends it. It is closed where the caller drops it.
    pub fn finish(self) -> (result: Result<(I, InputSteps), FFmpegError>)
        ensures
            result is Ok <==> self@ is Some,
            result matches Ok((input, steps)) ==> self@ == Some(input) && steps@ == seq![
                InputAction::Shutdown,
            ],
            result matches Err(e) ==> e == FFmpegError::InputNotAvailable,
    {
        match self.input {
            Some(input) => {
                let steps = InputSteps { pending: vec![InputAction::Shutdown] };
                assert(steps@ =~= seq![InputAction::Shutdown]);
                Ok((input, steps))
            },
            None => Err(FFmpegError::InputNotAvailable),
        }
    }
}

pub struct FFmpegCompletionHandle<C> {
    child: C,
}

impl<C> View for FFmpegCompletionHandle<C> {
    type V = C;

    closed spec fn view(&self) -> C {
        self.child
    }
}

impl<C> FFmpegCompletionHandle<C> {
    pub fn new(child: C) -> (created: Self)
        ensures
            created@ == child,
    {
        FFmpegCompletionHandle { child }
    }

    /// The process to wait for.
    pub fn into_child(self) -> (child: C)
        ensures
            child == self@,
    {
        self.child
    }

    /// What the end of the process comes to: `waited` says whether it reported success, or why
    /// it could not be waited for.
    pub fn finish(waited: Result<bool, FFmpegError>) -> (result: Result<(), FFmpegError>)
        ensures
            result == match waited {
                Ok(true) => Ok(()),
                Ok(false) => Err(FFmpegError::ProcessFailed),
                Err(e) => Err(e),
            },
    {
        match waited {
            Ok(success) => {
                if success {
                    Ok(())
                } else {
                    Err(FFmpegError::ProcessFailed)
                }
            },
            Err(e) => Err(e),
        }
    }
}

/// Where the video stream stands among the inputs of the process.
pub const VIDEO_INPUT: usize = 0;

/// Where the audio stream stands among the inputs of the process.
pub const AUDIO_INPUT: usize = 1;

/// How the process is to be started.
pub struct MuxerCommand<P> {
    /// Feed the first input through the standard input.
    pub use_stdin: bool,
    /// The options of each input.
    pub inputs: Vec<Vec<String>>,
    /// The options of the output.
    pub output_options: Vec<String>,
    /// Where the output goes.
    pub destination: P,
}

/// A process that was started.
pub struct SpawnedMuxer<I, C> {
    /// The writing ends of its inputs, if it has any.
    pub inputs: Option<Vec<I>>,
    pub child: C,
}

/// The texts of `strings`.
pub open spec fn texts(strings: Seq<String>) -> Seq<Seq<char>> {
    strings.map_values(|s: String| s@)
}

/// The options that name the format of the video stream. Raw H.264 has no time stamps, so the
/// stream is taken to have the constant frame rate `fps`.
pub open spec fn video_options(fps: Seq<char>) -> Seq<Seq<char>> {
    seq!["-f"@, "h264"@, "-r"@, fps]
}

/// The options that name the format of the audio stream.
pub open spec fn audio_options() -> Seq<Seq<char>> {
    seq!["-f"@, "aac"@]
}

/// The options of the output: both streams copied as they are into an MP4 file.
pub open spec fn output_options() -> Seq<Seq<char>> {
    seq!["-pix_fmt"@, "yuv420p"@, "-c:v"@, "copy"@, "-c:a"@, "copy"@, "-f"@, "mp4"@]
}

impl<P> MuxerCommand<P> {
    /// `self` muxes an H.264 stream with `fps` frames per second and an AAC stream into
    /// `destination`.
    pub open spec fn muxes_into(&self, destination: P, fps: Seq<char>) -> bool {
        &&& self.use_stdin
        &&& self.inputs@.len() == 2
        &&& texts(self.inputs@[VIDEO_INPUT as int]@) == video_options(fps)
        &&& texts(self.inputs@[AUDIO_INPUT as int]@) == audio_options()
        &&& texts(self.output_options@) == output_options()
        &&& self.destination == destination
    }

    /// The command that muxes an H.264 stream with `fps` frames per second, written as FFmpeg
    /// takes it, and an AAC stream into `destination`.
    pub fn new(destination: P, fps: &str) -> (command: Self)
        ensures
            command.muxes_into(destination, fps@),
    {
        let video: Vec<String> = vec![
            "-f".to_owned(),
            "h264".to_owned(),
            "-r".to_owned(),
            fps.to_owned(),
        ];
        let audio: Vec<String> = vec!["-f".to_owned(), "aac".to_owned()];
        let output: Vec<String> = vec![
            "-pix_fmt".to_owned(),
            "yuv420p".to_owned(),
            "-c:v".to_owned(),
            "copy".to_owned(),
            "-c:a".to_owned(),
            "copy".to_owned(),
            "-f".to_owned(),
            "mp4".to_owned(),
        ];
        assert(texts(video@) =~= video_options(fps@));
        assert(texts(audio@) =~= audio_options());
        assert(texts(output@) =~= output_options());
        MuxerCommand {
            use_stdin: true,
            inputs: vec![video, audio],
            output_options: output,
            destination,
        }
    }
}

/// A process that has pipes has one for each of the two streams.
pub open spec fn has_pipes_for_both<I, C>(
    spawned: Result<SpawnedMuxer<I, C>, FFmpegError>,
) -> bool {
    spawned matches Ok(process) ==> (process.inputs matches Some(inputs) ==> inputs@.len() >= 2)
}

/// `result` is what a process that was started, or not, as `spawned` says gives: a muxer over
/// it; or, if it has no pipes or was not started, the error that says so.
pub open spec fn is_muxer_of<I, C>(
    result: Result<FFmpegMuxer<I, C>, FFmpegError>,
    spawned: Result<SpawnedMuxer<I, C>, FFmpegError>,
) -> bool {
    match spawned {
        Ok(process) => if process.inputs is Some {
            result matches Ok(muxer) && muxer.is_over(process)
        } else {
            result matches Err(e) && e == FFmpegError::InputsNotAvailable
        },
        Err(reason) => result matches Err(e) && e == reason,
    }
}

pub struct FFmpegMuxer<I, C> {
    video: FFmpegMuxerVideoInput<I>,
    audio: FFmpegMuxerAudioInput<I>,
    completion: FFmpegCompletionHandle<C>,
}

impl<I, C> FFmpegMuxer<I, C> {
    /// The pipe of the video stream.
    pub closed spec fn video(&self) -> Option<I> {
        self.video@
    }

    /// The pipe of the audio stream.
    pub closed spec fn audio(&self) -> Option<I> {
        self.audio@
    }

    /// The process.
    pub closed spec fn child(&self) -> C {
        self.completion@
    }

    /// `self` is made of the pipes and the process of `process`: its first pipe takes the video
    /// stream, its second the audio stream.
    pub open spec fn is_over(&self, process: SpawnedMuxer<I, C>) -> bool {
        &&& process.inputs matches Some(inputs)
        &&& self.video() == Some(inputs@[VIDEO_INPUT as int])
        &&& self.audio() == Some(inputs@[AUDIO_INPUT as int])
        &&& self.child() == process.child
    }

    /// The muxer into `output_path` for a video stream with `fps` frames per second. `spawn`
    /// starts the process, and hands over a pipe for each input of the command.
    pub fn new<P, F: FnOnce(MuxerCommand<P>) -> Result<SpawnedMuxer<I, C>, FFmpegError>>(
        output_path: P,
        fps: &str,
        spawn: F,
    ) -> (result: Result<Self, FFmpegError>)
        requires
            forall|command: MuxerCommand<P>|
                command.muxes_into(output_path, fps@) ==> call_requires(spawn, (command,)),
            forall|command: MuxerCommand<P>, spawned: Result<SpawnedMuxer<I, C>, FFmpegError>|
                call_ensures(spawn, (command,), spawned) ==> has_pipes_for_both(spawned),
        ensures
            exists|command: MuxerCommand<P>, spawned: Result<SpawnedMuxer<I, C>, FFmpegError>| {
                &&& command.muxes_into(output_path, fps@)
                &&& #[trigger] call_ensures(spawn, (command,), spawned)
                &&& is_muxer_of(result, spawned)
            },
    {
        let command = MuxerCommand::new(output_path, fps);
        let spawned = spawn(command);
        Self::over(spawned)
    }

    /// The muxer over a process that was started, or the reason why there is none.
    pub fn over(spawned: Result<SpawnedMuxer<I, C>, FFmpegError>) -> (result: Result<
        Self,
        FFmpegError,
    >)
        requires
            has_pipes_for_both(spawned),
        ensures
            is_muxer_of(result, spawned),
    {
        match spawned {
            Err(e) => Err(e),
            Ok(process) => match process.inputs {
                None => Err(FFmpegError::InputsNotAvailable),
                Some(pipes) => {
                    let mut pipes = pipes;
                    let audio = pipes.remove(AUDIO_INPUT);
                    let video = pipes.remove(VIDEO_INPUT);
                    Ok(
                        FFmpegMuxer {
                            video: FFmpegMuxerVideoInput::new(Some(video)),
                            audio: FFmpegMuxerAudioInput::new(Some(audio)),
                            completion: FFmpegCompletionHandle::new(process.child),
                        },
                    )
                },
            },
        }
    }

    /// The two inputs, and the handle on the end of the process.
    pub fn get_inputs(self) -> (parts: (
        FFmpegMuxerVideoInput<I>,
        FFmpegMuxerAudioInput<I>,
        FFmpegCompletionHandle<C>,
    ))
        ensures
            parts.0@ == self.video(),
            parts.1@ == self.audio(),
            parts.2@ == self.child(),
    {
        (self.video, self.audio, self.completion)
    }
}

/// The steps are taken in their order, up to and including the first that fails, and none after
/// it; that failure is what is reported.
pub proof fn law_first_failure_ends_the_steps(
    pending: Seq<InputAction>,
    before: Result<(), FFmpegError>,
    outcomes: Seq<Result<(), FFmpegError>>,
    failed: int,
)
    requires
        before is Ok,
        0 <= failed < pending.len(),
        failed < outcomes.len(),
        outcomes[failed] is Err,
        forall|i: int| 0 <= i < failed ==> #[trigger] outcomes[i] is Ok,
    ensures
        trace(pending, before, outcomes) == pending.take(failed + 1),
        outcome(pending, before, outcomes) == Some(outcomes[failed]),
    decreases pending.len(),
{
    if failed > 0 {
        assert(outcomes[0] is Ok);
        law_first_failure_ends_the_steps(
            pending.drop_first(),
            outcomes[0],
            outcomes.drop_first(),
            failed - 1,
        );
    } else {
        reveal_with_fuel(trace, 2);
        reveal_with_fuel(outcome, 2);
    }
    assert(trace(pending, before, outcomes) =~= pending.take(failed + 1));
}

/// Where no step fails, all are taken in their order and success is reported.
pub proof fn law_all_steps_are_taken(
    pending: Seq<InputAction>,
    before: Result<(), FFmpegError>,
    outcomes: Seq<Result<(), FFmpegError>>,
)
    requires
        before is Ok,
        outcomes.len() == pending.len(),
        forall|i: int| 0 <= i < outcomes.len() ==> #[trigger] outcomes[i] is Ok,
    ensures
        trace(pending, before, outcomes) == pending,
        outcome(pending, before, outcomes) == Some(Ok::<(), FFmpegError>(())),
    decreases pending.len(),
{
    if pending.len() > 0 {
        assert(outcomes[0] is Ok);
        law_all_steps_are_taken(pending.drop_first(), outcomes[0], outcomes.drop_first());
    }
    assert(trace(pending, before, outcomes) =~= pending);
}

/// The steps of all the pieces in `pushed`, in the order in which they were pushed.
pub open spec fn video_steps(pushed: Seq<VideoEncodedData>) -> Seq<InputAction>
    decreases pushed.len(),
{
    if pushed.len() == 0 {
        seq![]
    } else {
        video_steps(pushed.drop_last()) + pushed.last().steps()
    }
}

/// The steps of all the pieces in `pushed`, in the order in which they were pushed.
pub open spec fn audio_steps(pushed: Seq<AudioEncodedData>) -> Seq<InputAction>
    decreases pushed.len(),
{
    if pushed.len() == 0 {
        seq![]
    } else {
        audio_steps(pushed.drop_last()) + pushed.last().steps()
    }
}

/// The payloads of `pushed`, one after the other.
pub open spec fn video_stream(pushed: Seq<VideoEncodedData>) -> Seq<u8>
    decreases pushed.len(),
{
    if pushed.len() == 0 {
        seq![]
    } else {
        video_stream(pushed.drop_last()) + pushed.last().bytes()@
    }
}

/// The framed payloads of `pushed`, one after the other.
pub open spec fn audio_stream(pushed: Seq<AudioEncodedData>) -> Seq<u8>
    decreases pushed.len(),
{
    if pushed.len() == 0 {
        seq![]
    } else {
        audio_stream(pushed.drop_last()) + pushed.last().header@ + pushed.last().payload@
    }
}

/// What goes into the video pipe is the pushed payloads, in order, with nothing in between.
pub proof fn law_video_pipe_carries_the_stream(pushed: Seq<VideoEncodedData>)
    ensures
        written(video_steps(pushed)) == video_stream(pushed),
    decreases pushed.len(),
{
    if pushed.len() > 0 {
        law_video_pipe_carries_the_stream(pushed.drop_last());
        let last = pushed.last();
        lemma_written_concat(video_steps(pushed.drop_last()), last.steps());
        assert(last.steps().drop_last() =~= seq![InputAction::Write(last.bytes())]);
        assert(last.steps().drop_last().drop_last() =~= seq![]);
        reveal_with_fuel(written, 3);
        assert(written(last.steps()) =~= last.bytes()@);
    }
}

/// What goes into the audio pipe is the pushed payloads, in order, each behind its own header.
pub proof fn law_audio_pipe_carries_the_stream(pushed: Seq<AudioEncodedData>)
    ensures
        written(audio_steps(pushed)) == audio_stream(pushed),
    decreases pushed.len(),
{
    if pushed.len() > 0 {
        law_audio_pipe_carries_the_stream(pushed.drop_last());
        let last = pushed.last();
        lemma_written_concat(audio_steps(pushed.drop_last()), last.steps());
        let first_two = seq![InputAction::Write(last.header), InputAction::Write(last.payload)];
        assert(last.steps().drop_last() =~= first_two);
        assert(first_two.drop_last() =~= seq![InputAction::Write(last.header)]);
        assert(first_two.drop_last().drop_last() =~= seq![]);
        reveal_with_fuel(written, 4);
        assert(written(last.steps()) =~= last.header@ + last.payload@);
        assert(audio_stream(pushed) =~= audio_stream(pushed.drop_last()) + (last.header@
            + last.payload@));
    }
}

/// Each pipe is the one whose options name the format of what is pushed into it: H.264 into the
/// first, AAC into the second.
pub proof fn law_pipes_match_the_command<P, I, C>(
    command: MuxerCommand<P>,
    destination: P,
    fps: Seq<char>,
    process: SpawnedMuxer<I, C>,
    muxer: FFmpegMuxer<I, C>,
)
    requires
        command.muxes_into(destination, fps),
        muxer.is_over(process),
        process.inputs->0@.len() == command.inputs@.len(),
    ensures
        exists|v: int|
            0 <= v < command.inputs@.len() && muxer.video() == Some(process.inputs->0@[v])
                && texts(#[trigger] command.inputs@[v]@) == video_options(fps),
        exists|a: int|
            0 <= a < command.inputs@.len() && muxer.audio() == Some(process.inputs->0@[a])
                && texts(#[trigger] command.inputs@[a]@) == audio_options(),
{
    let v = command.inputs@[VIDEO_INPUT as int]@;
    let a = command.inputs@[AUDIO_INPUT as int]@;
}

proof fn lemma_written_concat(a: Seq<InputAction>, b: Seq<InputAction>)
    ensures
        written(a + b) == written(a) + written(b),
    decreases b.len(),
{
    if b.len() == 0 {
        assert(a + b =~= a);
        assert(written(a) + written(b) =~= written(a));
    } else {
        lemma_written_concat(a, b.drop_last());
        assert((a + b).drop_last() =~= a + b.drop_last());
        assert((a + b).last() == b.last());
        assert(written(a + b) =~= written(a) + written(b));
    }
}

/// The command is as it is documented, whatever the frame rate and the destination: the text of
/// the frame rate stands, character for character, directly behind `-r` among the options of the
/// video stream, and nothing else depends on it. Every frame rate and destination is accepted.
pub proof fn law_command_names_rate_and_destination<P>(
    destination: P,
    fps: &str,
    command: MuxerCommand<P>,
)
    requires
        call_ensures(MuxerCommand::<P>::new, (destination, fps), command),
    ensures
        call_requires(MuxerCommand::<P>::new, (destination, fps)),
        command.use_stdin,
        command.destination == destination,
        command.inputs@.len() == 2,
        command.inputs@[0]@.len() == 4,
        command.inputs@[0]@[0]@ == "-f"@,
        command.inputs@[0]@[1]@ == "h264"@,
        command.inputs@[0]@[2]@ == "-r"@,
        command.inputs@[0]@[3]@ == fps@,
        command.inputs@[1]@.len() == 2,
        command.inputs@[1]@[0]@ == "-f"@,
        command.inputs@[1]@[1]@ == "aac"@,
        command.output_options@.len() == 8,
        command.output_options@[0]@ == "-pix_fmt"@,
        command.output_options@[1]@ == "yuv420p"@,
        command.output_options@[2]@ == "-c:v"@,
        command.output_options@[3]@ == "copy"@,
        command.output_options@[4]@ == "-c:a"@,
        command.output_options@[5]@ == "copy"@,
        command.output_options@[6]@ == "-f"@,
        command.output_options@[7]@ == "mp4"@,
{
    lemma_command_texts(command, destination, fps@);
}

/// Commands for two frame rates differ behind `-r`, and nowhere else.
pub proof fn law_frame_rate_tells_commands_apart<P>(
    destination: P,
    fps: &str,
    other_fps: &str,
    command: MuxerCommand<P>,
    other: MuxerCommand<P>,
    i: int,
)
    requires
        call_ensures(MuxerCommand::<P>::new, (destination, fps), command),
        call_ensures(MuxerCommand::<P>::new, (destination, other_fps), other),
    ensures
        command.inputs@[0]@[3]@ == other.inputs@[0]@[3]@ <==> fps@ == other_fps@,
        command.use_stdin == other.use_stdin,
        command.destination == other.destination,
        command.inputs@[0]@.len() == other.inputs@[0]@.len(),
        command.inputs@[1]@.len() == other.inputs@[1]@.len(),
        command.output_options@.len() == other.output_options@.len(),
        0 <= i < 3 ==> command.inputs@[0]@[i]@ == other.inputs@[0]@[i]@,
        0 <= i < 2 ==> command.inputs@[1]@[i]@ == other.inputs@[1]@[i]@,
        0 <= i < command.output_options@.len() ==> command.output_options@[i]@
            == other.output_options@[i]@,
{
    lemma_command_texts(command, destination, fps@);
    lemma_command_texts(other, destination, other_fps@);
    assert(texts(command.output_options@).len() == 8);
    if 0 <= i < 8 {
        assert(texts(command.output_options@)[i] == texts(other.output_options@)[i]);
        assert(texts(command.output_options@)[i] == command.output_options@[i]@);
        assert(texts(other.output_options@)[i] == other.output_options@[i]@);
    }
}

proof fn lemma_command_texts<P>(command: MuxerCommand<P>, destination: P, fps: Seq<char>)
    requires
        command.muxes_into(destination, fps),
    ensures
        command.inputs@[0]@.len() == 4,
        command.inputs@[0]@[0]@ == "-f"@,
        command.inputs@[0]@[1]@ == "h264"@,
        command.inputs@[0]@[2]@ == "-r"@,
        command.inputs@[0]@[3]@ == fps,
        command.inputs@[1]@.len() == 2,
        command.inputs@[1]@[0]@ == "-f"@,
        command.inputs@[1]@[1]@ == "aac"@,
        command.output_options@.len() == 8,
        command.output_options@[0]@ == "-pix_fmt"@,
        command.output_options@[1]@ == "yuv420p"@,
        command.output_options@[2]@ == "-c:v"@,
        command.output_options@[3]@ == "copy"@,
        command.output_options@[4]@ == "-c:a"@,
        command.output_options@[5]@ == "copy"@,
        command.output_options@[6]@ == "-f"@,
        command.output_options@[7]@ == "mp4"@,
{
    let video = command.inputs@[0]@;
    let audio = command.inputs@[1]@;
    let output = command.output_options@;
    assert(texts(video).len() == 4 && texts(audio).len() == 2 && texts(output).len() == 8);
    assert(texts(video)[0] == video[0]@ && texts(video)[1] == video[1]@);
    assert(texts(video)[2] == video[2]@ && texts(video)[3] == video[3]@);
    assert(texts(audio)[0] == audio[0]@ && texts(audio)[1] == audio[1]@);
    assert(texts(output)[0] == output[0]@ && texts(output)[1] == output[1]@);
    assert(texts(output)[2] == output[2]@ && texts(output)[3] == output[3]@);
    assert(texts(output)[4] == output[4]@ && texts(output)[5] == output[5]@);
    assert(texts(output)[6] == output[6]@ && texts(output)[7] == output[7]@);
}

/// Pushing video writes the payload of the piece, whole and unchanged, flushes it once behind
/// that, and leaves the pipe open: no step of a push ends the pipe, whatever the piece. Any piece
/// is accepted while the pipe is there, and none where it is not.
pub proof fn law_video_push_writes_the_payload_and_flushes<I>(
    input: &mut FFmpegMuxerVideoInput<I>,
    data: VideoEncodedData,
    result: Result<(&mut I, InputSteps), FFmpegError>,
)
    requires
        call_ensures(FFmpegMuxerVideoInput::<I>::push, (input, data), result),
    ensures
        call_requires(FFmpegMuxerVideoInput::<I>::push, (input, data)),
        old(input)@ is None ==> result is Err,
        result matches Err(e) ==> e is InputNotAvailable && final(input)@ == old(input)@,
        old(input)@ matches Some(pipe) ==> {
            &&& result matches Ok((given, steps))
            &&& *given == pipe
            &&& final(input)@ == Some(*final(given))
            &&& steps@.len() == 2
            &&& steps@[0] matches InputAction::Write(bytes)
            &&& data matches VideoEncodedData::ParameterSet(payload) ==> bytes@ == payload@
            &&& data matches VideoEncodedData::Slice { payload } ==> bytes@ == payload@
            &&& steps@[1] is Flush
            &&& forall|i: int| 0 <= i < steps@.len() ==> #[trigger] steps@[i] !is Shutdown
        },
{
}

/// Pushing audio writes the header of the piece and then its payload, whole and unchanged,
/// flushes once behind them, and leaves the pipe open: no step of a push ends the pipe, whatever
/// the piece. Any piece is accepted while the pipe is there, and none where it is not.
pub proof fn law_audio_push_writes_the_frame_and_flushes<I>(
    input: &mut FFmpegMuxerAudioInput<I>,
    data: AudioEncodedData,
    result: Result<(&mut I, InputSteps), FFmpegError>,
)
    requires
        call_ensures(FFmpegMuxerAudioInput::<I>::push, (input, data), result),
    ensures
        call_requires(FFmpegMuxerAudioInput::<I>::push, (input, data)),
        old(input)@ is None ==> result is Err,
        result matches Err(e) ==> e is InputNotAvailable && final(input)@ == old(input)@,
        old(input)@ matches Some(pipe) ==> {
            &&& result matches Ok((given, steps))
            &&& *given == pipe
            &&& final(input)@ == Some(*final(given))
            &&& steps@.len() == 3
            &&& steps@[0] matches InputAction::Write(header) && header@ == data.header@
            &&& steps@[1] matches InputAction::Write(payload) && payload@ == data.payload@
            &&& steps@[2] is Flush
            &&& forall|i: int| 0 <= i < steps@.len() ==> #[trigger] steps@[i] !is Shutdown
        },
{
}

/// Finishing hands the pipe over with one step, which ends it, and does so exactly where there is
/// a pipe.
pub proof fn law_finish_ends_the_pipe<I>(
    video: FFmpegMuxerVideoInput<I>,
    video_result: Result<(I, InputSteps), FFmpegError>,
    audio: FFmpegMuxerAudioInput<I>,
    audio_result: Result<(I, InputSteps), FFmpegError>,
)
    requires
        call_ensures(FFmpegMuxerVideoInput::<I>::finish, (video,), video_result),
        call_ensures(FFmpegMuxerAudioInput::<I>::finish, (audio,), audio_result),
    ensures
        call_requires(FFmpegMuxerVideoInput::<I>::finish, (video,)),
        call_requires(FFmpegMuxerAudioInput::<I>::finish, (audio,)),
        match video@ {
            Some(pipe) => {
                &&& video_result matches Ok((given, steps))
                &&& given == pipe
                &&& steps@.len() == 1
                &&& steps@[0] is Shutdown
            },
            None => video_result matches Err(e) && e is InputNotAvailable,
        },
        match audio@ {
            Some(pipe) => {
                &&& audio_result matches Ok((given, steps))
                &&& given == pipe
                &&& steps@.len() == 1
                &&& steps@[0] is Shutdown
            },
            None => audio_result matches Err(e) && e is InputNotAvailable,
        },
{
}

/// Only finishing ends a pipe: however much is pushed, no step of it does, and every piece is
/// flushed once its bytes are written.
pub proof fn law_pushes_leave_the_pipes_open(
    video: Seq<VideoEncodedData>,
    audio: Seq<AudioEncodedData>,
)
    ensures
        forall|i: int|
            0 <= i < video_steps(video).len() ==> #[trigger] video_steps(video)[i] !is Shutdown,
        forall|i: int|
            0 <= i < audio_steps(audio).len() ==> #[trigger] audio_steps(audio)[i] !is Shutdown,
        video.len() > 0 ==> video_steps(video).last() is Flush,
        audio.len() > 0 ==> audio_steps(audio).last() is Flush,
        video_steps(video).len() == 2 * video.len(),
        audio_steps(audio).len() == 3 * audio.len(),
    decreases video.len() + audio.len(),
{
    if video.len() > 0 {
        law_pushes_leave_the_pipes_open(video.drop_last(), audio);
    } else if audio.len() > 0 {
        law_pushes_leave_the_pipes_open(video, audio.drop_last());
    }
}

/// After a step that went well the next one is handed out, the first of those pending, and the
/// others stay as they are; where none is left, success is reported. After a step that failed its
/// error is reported, and nothing is left to do.
pub proof fn law_steps_are_handed_out_one_by_one(
    steps: &mut InputSteps,
    last: Result<(), FFmpegError>,
    next: InputProgress,
)
    requires
        call_ensures(InputSteps::next, (steps, last), next),
    ensures
        call_requires(InputSteps::next, (steps, last)),
        last matches Err(e) ==> {
            &&& next matches InputProgress::Finished(Err(reported))
            &&& reported == e
            &&& final(steps)@.len() == 0
        },
        last is Ok && old(steps)@.len() == 0 ==> {
            &&& next matches InputProgress::Finished(Ok(_))
            &&& final(steps)@.len() == 0
        },
        last is Ok && old(steps)@.len() > 0 ==> {
            &&& next matches InputProgress::Perform(action)
            &&& old(steps)@ == seq![action] + final(steps)@
        },
{
    if last is Ok && old(steps)@.len() > 0 {
        assert(old(steps)@ =~= seq![old(steps)@[0]] + final(steps)@);
    }
}

/// A process that was started with pipes gives a muxer: its first pipe takes what is pushed as
/// video, its second what is pushed as audio, and the end of the process is waited for on that
/// very process. Without pipes, or where the process was not started, the error says so.
pub proof fn law_muxer_is_made_of_the_process<I, C>(
    spawned: Result<SpawnedMuxer<I, C>, FFmpegError>,
    result: Result<FFmpegMuxer<I, C>, FFmpegError>,
    parts: (FFmpegMuxerVideoInput<I>, FFmpegMuxerAudioInput<I>, FFmpegCompletionHandle<C>),
    child: C,
)
    requires
        call_ensures(FFmpegMuxer::<I, C>::over, (spawned,), result),
        result matches Ok(muxer) ==> call_ensures(
            FFmpegMuxer::<I, C>::get_inputs,
            (muxer,),
            parts,
        ),
        result is Ok ==> call_ensures(
            FFmpegCompletionHandle::<C>::into_child,
            (parts.2,),
            child,
        ),
    ensures
        (spawned matches Ok(process) && process.inputs matches Some(pipes) ==> pipes@.len() >= 2)
            ==> call_requires(FFmpegMuxer::<I, C>::over, (spawned,)),
        match spawned {
            Ok(process) => match process.inputs {
                Some(pipes) => {
                    &&& result is Ok
                    &&& parts.0@ == Some(pipes@[0])
                    &&& parts.1@ == Some(pipes@[1])
                    &&& child == process.child
                },
                None => result matches Err(e) && e is InputsNotAvailable,
            },
            Err(reason) => result matches Err(e) && e == reason,
        },
{
}

/// Starting a muxer starts one process, from a command for the given destination whose video
/// stream has the given frame rate; the muxer is over that process, or the error is the one that
/// starting it gave. Any destination and frame rate are accepted where the process gets its pipes.
pub proof fn law_muxer_is_started_from_its_command<P, I, C, F>(
    output_path: P,
    fps: &str,
    spawn: F,
    result: Result<FFmpegMuxer<I, C>, FFmpegError>,
) where F: FnOnce(MuxerCommand<P>) -> Result<SpawnedMuxer<I, C>, FFmpegError>
    requires
        call_ensures(FFmpegMuxer::<I, C>::new::<P, F>, (output_path, fps, spawn), result),
    ensures
        (forall|command: MuxerCommand<P>| call_requires(spawn, (command,))) && (forall|
            command: MuxerCommand<P>,
            spawned: Result<SpawnedMuxer<I, C>, FFmpegError>,
        | #[trigger]
            call_ensures(spawn, (command,), spawned) ==> (spawned matches Ok(process) && (
            process.inputs matches Some(pipes) && pipes@.len() >= 2))) ==> call_requires(
            FFmpegMuxer::<I, C>::new::<P, F>,
            (output_path, fps, spawn),
        ),
        exists|command: MuxerCommand<P>, spawned: Result<SpawnedMuxer<I, C>, FFmpegError>| {
            &&& #[trigger] call_ensures(spawn, (command,), spawned)
            &&& command.use_stdin
            &&& command.destination == output_path
            &&& command.inputs@.len() == 2
            &&& command.inputs@[0]@.len() == 4
            &&& command.inputs@[0]@[1]@ == "h264"@
            &&& command.inputs@[0]@[2]@ == "-r"@
            &&& command.inputs@[0]@[3]@ == fps@
            &&& command.inputs@[1]@.len() == 2
            &&& command.inputs@[1]@[1]@ == "aac"@
            &&& match spawned {
                Ok(process) => match process.inputs {
                    Some(pipes) => {
                        &&& result matches Ok(muxer)
                        &&& muxer.video() == Some(pipes@[0])
                        &&& muxer.audio() == Some(pipes@[1])
                        &&& muxer.child() == process.child
                    },
                    None => result matches Err(e) && e is InputsNotAvailable,
                },
                Err(reason) => result matches Err(e) && e == reason,
            }
        },
{
    let (command, spawned) = choose|
        command: MuxerCommand<P>,
        spawned: Result<SpawnedMuxer<I, C>, FFmpegError>,
    | {
        &&& command.muxes_into(output_path, fps@)
        &&& #[trigger] call_ensures(spawn, (command,), spawned)
        &&& is_muxer_of(result, spawned)
    };
    lemma_command_texts(command, output_path, fps@);
    assert(call_ensures(spawn, (command,), spawned));
}

/// The muxing succeeded exactly where the process was waited for and reported success. Where it
/// could not be waited for, the reason is the one that the waiting gave.
pub proof fn law_muxing_succeeds_with_its_process<C>(
    waited: Result<bool, FFmpegError>,
    result: Result<(), FFmpegError>,
)
    requires
        call_ensures(FFmpegCompletionHandle::<C>::finish, (waited,), result),
    ensures
        call_requires(FFmpegCompletionHandle::<C>::finish, (waited,)),
        result is Ok <==> (waited matches Ok(success) && success),
        waited matches Err(reason) ==> (result matches Err(e) && e == reason),
        waited matches Ok(success) && !success ==> (result matches Err(e) && e is ProcessFailed),
{
}

/// An input, and the handle on the end of the process, is over what it was made over.
pub proof fn law_inputs_are_over_what_is_given<I, C>(
    pipe: Option<I>,
    video: FFmpegMuxerVideoInput<I>,
    audio: FFmpegMuxerAudioInput<I>,
    child: C,
    handle: FFmpegCompletionHandle<C>,
    waited_for: C,
)
    requires
        call_ensures(FFmpegMuxerVideoInput::<I>::new, (pipe,), video),
        call_ensures(FFmpegMuxerAudioInput::<I>::new, (pipe,), audio),
        call_ensures(FFmpegCompletionHandle::<C>::new, (child,), handle),
        call_ensures(FFmpegCompletionHandle::<C>::into_child, (handle,), waited_for),
    ensures
        video@ == pipe,
        audio@ == pipe,
        waited_for == child,
{
}

} // verus!
