use unienc::encoding_system::FFmpegEncodingSystem;
use unienc::error::FFmpegError;
use unienc::mux::{
    AudioEncodedData, FFmpegCompletionHandle, FFmpegMuxer, FFmpegMuxerAudioInput,
    FFmpegMuxerVideoInput, InputAction, InputProgress, InputSteps, MuxerCommand, SpawnedMuxer,
    VideoEncodedData,
};

fn perform(
    pipe: &mut Vec<u8>,
    mut steps: InputSteps,
    fail_at: Option<usize>,
) -> (Vec<InputAction>, Result<(), FFmpegError>) {
    let mut performed = Vec::new();
    let mut last = Ok(());
    loop {
        match steps.next(last) {
            InputProgress::Finished(result) => return (performed, result),
            InputProgress::Perform(action) => {
                last = if fail_at == Some(performed.len()) {
                    Err(FFmpegError::Io("broken pipe".to_string()))
                } else {
                    if let InputAction::Write(bytes) = &action {
                        pipe.extend_from_slice(bytes);
                    }
                    Ok(())
                };
                performed.push(action);
            }
        }
    }
}

#[test]
fn command_line_of_the_muxer() {
    let command = MuxerCommand::new("out.mp4", "30");
    assert!(command.use_stdin);
    assert_eq!(
        command.inputs,
        vec![vec!["-f", "h264", "-r", "30"], vec!["-f", "aac"]]
    );
    assert_eq!(
        command.output_options,
        vec!["-pix_fmt", "yuv420p", "-c:v", "copy", "-c:a", "copy", "-f", "mp4"]
    );
    assert_eq!(command.destination, "out.mp4");
}

#[test]
fn first_pipe_is_video_and_second_is_audio() {
    let muxer = FFmpegMuxer::new("out.mp4", "60", |command: MuxerCommand<&str>| {
        assert_eq!(command.inputs[0][3], "60");
        Ok(SpawnedMuxer {
            inputs: Some(vec!["video", "audio"]),
            child: command.destination,
        })
    })
    .ok()
    .unwrap();
    let (video, audio, completion) = muxer.get_inputs();
    assert_eq!(video.finish().ok().unwrap().0, "video");
    assert_eq!(audio.finish().ok().unwrap().0, "audio");
    assert_eq!(completion.into_child(), "out.mp4");
}

#[test]
fn muxer_without_pipes() {
    let result: Result<FFmpegMuxer<u8, u8>, FFmpegError> = FFmpegMuxer::over(Ok(SpawnedMuxer {
        inputs: None,
        child: 0,
    }));
    assert_eq!(result.err(), Some(FFmpegError::InputsNotAvailable));
}

#[test]
fn muxer_that_does_not_start() {
    let reason = FFmpegError::Io("no such file".to_string());
    let result: Result<FFmpegMuxer<u8, u8>, FFmpegError> = FFmpegMuxer::over(Err(reason.clone()));
    assert_eq!(result.err(), Some(reason));
}

#[test]
fn video_payloads_are_written_and_flushed() {
    let mut input = FFmpegMuxerVideoInput::new(Some(Vec::new()));
    for data in [
        VideoEncodedData::ParameterSet(vec![1, 2]),
        VideoEncodedData::Slice { payload: vec![3] },
    ] {
        let (pipe, steps) = input.push(data).ok().unwrap();
        let (performed, result) = perform(pipe, steps, None);
        assert_eq!(result, Ok(()));
        assert_eq!(performed.len(), 2);
        assert_eq!(performed[1], InputAction::Flush);
    }
    let (mut pipe, steps) = input.finish().ok().unwrap();
    let (performed, result) = perform(&mut pipe, steps, None);
    assert_eq!(performed, vec![InputAction::Shutdown]);
    assert_eq!(result, Ok(()));
    assert_eq!(pipe, vec![1, 2, 3]);
}

#[test]
fn audio_headers_precede_their_payloads() {
    let mut input = FFmpegMuxerAudioInput::new(Some(Vec::new()));
    for n in 0..2u8 {
        let data = AudioEncodedData {
            header: vec![10 + n],
            payload: vec![20 + n, 30 + n],
        };
        let (pipe, steps) = input.push(data).ok().unwrap();
        let (performed, result) = perform(pipe, steps, None);
        assert_eq!(result, Ok(()));
        assert_eq!(performed.len(), 3);
    }
    let (pipe, _) = input.finish().ok().unwrap();
    assert_eq!(pipe, vec![10, 20, 30, 11, 21, 31]);
}

#[test]
fn failed_step_is_the_last_one() {
    let mut input = FFmpegMuxerAudioInput::new(Some(Vec::new()));
    let data = AudioEncodedData {
        header: vec![1],
        payload: vec![2],
    };
    let (pipe, steps) = input.push(data).ok().unwrap();
    let (performed, result) = perform(pipe, steps, Some(1));
    assert_eq!(
        performed,
        vec![InputAction::Write(vec![1]), InputAction::Write(vec![2])]
    );
    assert_eq!(
        result,
        Err(FFmpegError::Io("broken pipe".to_string()))
    );
    assert_eq!(*pipe, vec![1]);
}

#[test]
fn closed_inputs_refuse_everything() {
    let mut video: FFmpegMuxerVideoInput<u8> = FFmpegMuxerVideoInput::new(None);
    let pushed = video.push(VideoEncodedData::ParameterSet(vec![1]));
    assert_eq!(pushed.err(), Some(FFmpegError::InputNotAvailable));
    assert_eq!(video.finish().err(), Some(FFmpegError::InputNotAvailable));
    let mut audio: FFmpegMuxerAudioInput<u8> = FFmpegMuxerAudioInput::new(None);
    let pushed = audio.push(AudioEncodedData {
        header: vec![],
        payload: vec![],
    });
    assert_eq!(pushed.err(), Some(FFmpegError::InputNotAvailable));
    assert_eq!(audio.finish().err(), Some(FFmpegError::InputNotAvailable));
}

#[test]
fn end_of_the_process() {
    assert_eq!(FFmpegCompletionHandle::<u8>::finish(Ok(true)), Ok(()));
    assert_eq!(
        FFmpegCompletionHandle::<u8>::finish(Ok(false)),
        Err(FFmpegError::ProcessFailed)
    );
    let reason = FFmpegError::Io("gone".to_string());
    assert_eq!(
        FFmpegCompletionHandle::<u8>::finish(Err(reason.clone())),
        Err(reason)
    );
}

#[test]
fn encoding_system_hands_its_options_on() {
    let system: FFmpegEncodingSystem<u8, u16, ()> = FFmpegEncodingSystem::new(&7, &9, ());
    assert_eq!(system.new_video_encoder(|v| Ok(*v)), Ok(7u8));
    assert_eq!(system.new_audio_encoder(|a| Ok(*a)), Ok(9u16));
    assert_eq!(
        system.new_video_encoder(|_| Err::<u8, _>(FFmpegError::ProcessFailed)),
        Err(FFmpegError::ProcessFailed)
    );
}

#[test]
fn encoding_system_muxes_at_the_frame_rate_of_its_video() {
    let system: FFmpegEncodingSystem<u8, u16, ()> = FFmpegEncodingSystem::new(&24, &9, ());
    let muxer = system
        .new_muxer(
            "out.mp4",
            |video: &u8| format!("{}", video),
            |command: MuxerCommand<&str>| {
                let expected = MuxerCommand::new("out.mp4", "24");
                assert!(command.use_stdin);
                assert_eq!(command.inputs, expected.inputs);
                assert_eq!(command.inputs[0], vec!["-f", "h264", "-r", "24"]);
                assert_eq!(command.output_options, expected.output_options);
                Ok(SpawnedMuxer {
                    inputs: Some(vec!["video", "audio"]),
                    child: command.destination,
                })
            },
        )
        .ok()
        .unwrap();
    let (_, _, completion) = muxer.get_inputs();
    assert_eq!(completion.into_child(), "out.mp4");
}

#[test]
fn encoding_system_reports_that_the_muxer_did_not_start() {
    let system: FFmpegEncodingSystem<u8, u16, ()> = FFmpegEncodingSystem::new(&24, &9, ());
    let failed = system.new_muxer(
        "out.mp4",
        |video: &u8| format!("{}", video),
        |_: MuxerCommand<&str>| {
            Err::<SpawnedMuxer<u8, u8>, _>(FFmpegError::Io("no such file".to_string()))
        },
    );
    assert_eq!(failed.err(), Some(FFmpegError::Io("no such file".to_string())));
}
