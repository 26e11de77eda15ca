use unienc::error::{UniencError, UniencErrorKind, UniencErrorNative};
use unienc::ffi::{
    sample_reply, unit_reply, EncodedSample, SampleReply, UniencSampleData, UniencSampleKind,
};

#[test]
fn unit_reply_of_success() {
    assert_eq!(unit_reply(&Ok(())), UniencErrorNative::success());
}

#[test]
fn unit_reply_of_failure() {
    let native = unit_reply(&Err(UniencError::muxing_error("no")));
    assert_eq!(native.kind, UniencErrorKind::MuxingError);
    assert_eq!(native.message, Some(b"no\0".to_vec()));
}

#[test]
fn sample_is_passed_on() {
    let reply = sample_reply(Ok(Some(EncodedSample {
        serialized: Some(vec![1, 2, 3]),
        timestamp_bits: 1.5f64.to_bits(),
        kind: UniencSampleKind::Other(1),
    })));
    assert_eq!(
        reply,
        SampleReply {
            sample: Some(UniencSampleData {
                data: vec![1, 2, 3],
                timestamp_bits: 1.5f64.to_bits(),
                kind: UniencSampleKind::Other(1),
            }),
            error: UniencErrorNative::success(),
        }
    );
}

#[test]
fn no_sample_is_an_empty_one() {
    let reply = sample_reply(Ok(None));
    let sample = reply.sample.unwrap();
    assert!(sample.data.is_empty());
    assert_eq!(f64::from_bits(sample.timestamp_bits), 0.0);
    assert_eq!(sample.kind, UniencSampleKind::Interpolated);
    assert_eq!(reply.error, UniencErrorNative::success());
}

#[test]
fn sample_that_does_not_serialize_is_an_error() {
    let reply = sample_reply(Ok(Some(EncodedSample {
        serialized: None,
        timestamp_bits: 0,
        kind: UniencSampleKind::Interpolated,
    })));
    assert_eq!(reply.sample, None);
    assert_eq!(reply.error.kind, UniencErrorKind::EncodingError);
    assert_eq!(
        reply.error.message,
        Some(b"Failed to serialize encoded data\0".to_vec())
    );
}

#[test]
fn encoder_error_is_passed_on() {
    let reply = sample_reply(Err(UniencError::timeout_error("late")));
    assert_eq!(reply.sample, None);
    assert_eq!(reply.error.kind, UniencErrorKind::TimeoutError);
    assert_eq!(reply.error.message, Some(b"late\0".to_vec()));
}
