//! The encoders and the muxer of a recording, all made from one set of options.

use crate::error::FFmpegError;
use crate::mux::{
    has_pipes_for_both, is_muxer_of, texts, FFmpegMuxer, MuxerCommand, SpawnedMuxer,
};
use std::marker::PhantomData;
use vstd::prelude::*;

verus! {

/// The options of the video stream, those of the audio stream, and the runtime that the
/// encoders run on.
pub struct FFmpegEncodingSystem<V: Copy, A: Copy, R> {
    video_options: V,
    audio_options: A,
    _runtime: PhantomData<R>,
}

impl<V: Copy, A: Copy, R> FFmpegEncodingSystem<V, A, R> {
    pub closed spec fn video_options(&self) -> V {
        self.video_options
    }

    pub closed spec fn audio_options(&self) -> A {
        self.audio_options
    }

    pub fn new(video_options: &V, audio_options: &A, _runtime: R) -> (system: Self)
        ensures
            system.video_options() == *video_options,
            system.audio_options() == *audio_options,
    {
        FFmpegEncodingSystem {
            video_options: *video_options,
            audio_options: *audio_options,
            _runtime: PhantomData,
        }
    }

    /// What `create` makes of the options of the video stream.
    pub fn new_video_encoder<E, F: FnOnce(&V) -> Result<E, FFmpegError>>(&self, create: F) -> (
    encoder: Result<E, FFmpegError>)
        requires
            call_requires(create, (&self.video_options(),)),
        ensures
            call_ensures(create, (&self.video_options(),), encoder),
    {
        create(&self.video_options)
    }

    /// What `create` makes of the options of the audio stream.
    pub fn new_audio_encoder<E, F: FnOnce(&A) -> Result<E, FFmpegError>>(&self, create: F) -> (
    encoder: Result<E, FFmpegError>)
        requires
            call_requires(create, (&self.audio_options(),)),
        ensures
            call_ensures(create, (&self.audio_options(),), encoder),
    {
        create(&self.audio_options)
    }

    /// The muxer into `output_path`. `fps_text` gives the frame rate of the video stream as
    /// FFmpeg takes it, and `spawn` starts the process, with a pipe for each input of the
    /// command. The options of the audio stream are not needed.
    pub fn new_muxer<
        P,
        I,
        C,
        G: FnOnce(&V) -> String,
        F: FnOnce(MuxerCommand<P>) -> Result<SpawnedMuxer<I, C>, FFmpegError>,
    >(&self, output_path: P, fps_text: G, spawn: F) -> (muxer: Result<
        FFmpegMuxer<I, C>,
        FFmpegError,
    >)
        requires
            call_requires(fps_text, (&self.video_options(),)),
            forall|fps: String, command: MuxerCommand<P>|
                #[trigger] call_ensures(fps_text, (&self.video_options(),), fps)
                    && command.muxes_into(output_path, fps@) ==> #[trigger] call_requires(
                    spawn,
                    (command,),
                ),
            forall|command: MuxerCommand<P>, spawned: Result<SpawnedMuxer<I, C>, FFmpegError>|
                call_ensures(spawn, (command,), spawned) ==> has_pipes_for_both(spawned),
        ensures
            exists|
                fps: String,
                command: MuxerCommand<P>,
                spawned: Result<SpawnedMuxer<I, C>, FFmpegError>,
            | {
                &&& #[trigger] call_ensures(fps_text, (&self.video_options(),), fps)
                &&& command.muxes_into(output_path, fps@)
                &&& #[trigger] call_ensures(spawn, (command,), spawned)
                &&& is_muxer_of(muxer, spawned)
            },
    {
        let fps = fps_text(&self.video_options);
        FFmpegMuxer::new(output_path, fps.as_str(), spawn)
    }
}

/// The encoders of a system are made from the options that the system was made from: the video
/// encoder from those of the video stream, the audio encoder from those of the audio stream; and
/// what making them gives is what the system gives.
pub proof fn law_encoders_get_the_options_of_their_stream<V: Copy, A: Copy, R, E, F, G>(
    video_options: &V,
    audio_options: &A,
    runtime: R,
    system: FFmpegEncodingSystem<V, A, R>,
    create_video: F,
    video: Result<E, FFmpegError>,
    create_audio: G,
    audio: Result<E, FFmpegError>,
) where F: FnOnce(&V) -> Result<E, FFmpegError>, G: FnOnce(&A) -> Result<E, FFmpegError>
    requires
        call_ensures(
            FFmpegEncodingSystem::<V, A, R>::new,
            (video_options, audio_options, runtime),
            system,
        ),
        call_ensures(
            FFmpegEncodingSystem::<V, A, R>::new_video_encoder::<E, F>,
            (&system, create_video),
            video,
        ),
        call_ensures(
            FFmpegEncodingSystem::<V, A, R>::new_audio_encoder::<E, G>,
            (&system, create_audio),
            audio,
        ),
    ensures
        call_requires(
            FFmpegEncodingSystem::<V, A, R>::new,
            (video_options, audio_options, runtime),
        ),
        call_requires(create_video, (video_options,)) ==> call_requires(
            FFmpegEncodingSystem::<V, A, R>::new_video_encoder::<E, F>,
            (&system, create_video),
        ),
        call_requires(create_audio, (audio_options,)) ==> call_requires(
            FFmpegEncodingSystem::<V, A, R>::new_audio_encoder::<E, G>,
            (&system, create_audio),
        ),
        call_ensures(create_video, (video_options,), video),
        call_ensures(create_audio, (audio_options,), audio),
{
}

/// The muxer of a system is started once, from a command for the given destination whose frame
/// rate is the text that the options of the system's video stream give.
pub proof fn law_muxer_runs_at_the_rate_of_the_video<V: Copy, A: Copy, R, P, I, C, G, F>(
    video_options: &V,
    audio_options: &A,
    runtime: R,
    system: FFmpegEncodingSystem<V, A, R>,
    output_path: P,
    fps_text: G,
    spawn: F,
    muxer: Result<FFmpegMuxer<I, C>, FFmpegError>,
) where
    G: FnOnce(&V) -> String,
    F: FnOnce(MuxerCommand<P>) -> Result<SpawnedMuxer<I, C>, FFmpegError>,

    requires
        call_ensures(
            FFmpegEncodingSystem::<V, A, R>::new,
            (video_options, audio_options, runtime),
            system,
        ),
        call_ensures(
            FFmpegEncodingSystem::<V, A, R>::new_muxer::<P, I, C, G, F>,
            (&system, output_path, fps_text, spawn),
            muxer,
        ),
    ensures
        call_requires(fps_text, (video_options,)) && (forall|command: MuxerCommand<P>|
            call_requires(spawn, (command,))) && (forall|
            command: MuxerCommand<P>,
            spawned: Result<SpawnedMuxer<I, C>, FFmpegError>,
        | #[trigger]
            call_ensures(spawn, (command,), spawned) ==> (spawned matches Ok(process) && (
            process.inputs matches Some(pipes) && pipes@.len() >= 2))) ==> call_requires(
            FFmpegEncodingSystem::<V, A, R>::new_muxer::<P, I, C, G, F>,
            (&system, output_path, fps_text, spawn),
        ),
        exists|
            fps: String,
            command: MuxerCommand<P>,
            spawned: Result<SpawnedMuxer<I, C>, FFmpegError>,
        | {
            &&& #[trigger] call_ensures(fps_text, (video_options,), fps)
            &&& #[trigger] call_ensures(spawn, (command,), spawned)
            &&& command.destination == output_path
            &&& command.inputs@.len() == 2
            &&& command.inputs@[0]@.len() == 4
            &&& command.inputs@[0]@[3]@ == fps@
            &&& match spawned {
                Ok(process) => match process.inputs {
                    Some(pipes) => {
                        &&& muxer matches Ok(made)
                        &&& made.video() == Some(pipes@[0])
                        &&& made.audio() == Some(pipes@[1])
                        &&& made.child() == process.child
                    },
                    None => muxer matches Err(e) && e is InputsNotAvailable,
                },
                Err(reason) => muxer matches Err(e) && e == reason,
            }
        },
{
    let (fps, command, spawned) = choose|
        fps: String,
        command: MuxerCommand<P>,
        spawned: Result<SpawnedMuxer<I, C>, FFmpegError>,
    | {
        &&& #[trigger] call_ensures(fps_text, (&system.video_options(),), fps)
        &&& command.muxes_into(output_path, fps@)
        &&& #[trigger] call_ensures(spawn, (command,), spawned)
        &&& is_muxer_of(muxer, spawned)
    };
    let options = texts(command.inputs@[0]@);
    assert(options.len() == 4);
    assert(options[3] == command.inputs@[0]@[3]@);
    assert(call_ensures(fps_text, (video_options,), fps));
    assert(call_ensures(spawn, (command,), spawned));
}

} // verus!
