//! What the callbacks of the C interface are called with.

use crate::error::{UniencError, UniencErrorKind, UniencErrorNative};
use vstd::prelude::*;
use vstd::utf8::encode_utf8;

verus! {

/// What an encoded sample is to the stream that it belongs to.
#[derive(Clone, Copy, Debug, PartialEq, Eq, Structural)]
pub enum UniencSampleKind {
    /// Also the kind of the empty sample.
    Interpolated,
    /// Any other kind, by the number that stands for it in the interface.
    Other(i32),
}

/// A sample that an encoder gave out, as the interface sees it.
#[derive(Clone, Debug, PartialEq)]
pub struct EncodedSample {
    /// The bytes that the sample serializes to, or `None` if it does not serialize.
    pub serialized: Option<Vec<u8>>,
    /// The bit pattern of its time stamp.
    pub timestamp_bits: u64,
    pub kind: UniencSampleKind,
}

/// A sample as the other side of the interface reads it.
#[derive(Clone, Debug, PartialEq)]
pub struct UniencSampleData {
    pub data: Vec<u8>,
    /// The bit pattern of the time stamp.
    pub timestamp_bits: u64,
    pub kind: UniencSampleKind,
}

/// The arguments of a sample callback. Where there is no sample, the callback gets the default
/// one.
#[derive(Clone, Debug, PartialEq)]
pub struct SampleReply {
    pub sample: Option<UniencSampleData>,
    pub error: UniencErrorNative,
}

/// What the encoder's answer comes to once its sample, if there is one, has been serialized.
pub open spec fn is_reply_to(
    reply: SampleReply,
    answer: Result<Option<EncodedSample>, UniencError>,
) -> bool {
    match answer {
        Ok(Some(sample)) => match sample.serialized {
            Some(bytes) => {
                &&& is_success(reply.error)
                &&& reply.sample == Some(
                    UniencSampleData {
                        data: bytes,
                        timestamp_bits: sample.timestamp_bits,
                        kind: sample.kind,
                    },
                )
            },
            None => {
                &&& reply.sample is None
                &&& reply.error.kind == UniencErrorKind::EncodingError
                &&& reply.error.message matches Some(bytes)
                &&& bytes@ == crate::error::c_string("Failed to serialize encoded data"@)
            },
        },
        Ok(None) => {
            &&& is_success(reply.error)
            &&& reply.sample matches Some(sample)
            &&& sample.data@ == Seq::<u8>::empty()
            &&& sample.timestamp_bits == 0
            &&& sample.kind == UniencSampleKind::Interpolated
        },
        Err(err) => reply.sample is None && reply.error.is_native_of(err),
    }
}

/// `error` says that nothing went wrong.
pub open spec fn is_success(error: UniencErrorNative) -> bool {
    error.kind == UniencErrorKind::Success && error.message is None
}

/// What a callback that carries no data is called with.
pub fn unit_reply(result: &Result<(), UniencError>) -> (native: UniencErrorNative)
    requires
        result matches Err(err) ==> err.has_c_text(),
    ensures
        match *result {
            Ok(_) => is_success(native),
            Err(err) => native.is_native_of(err),
        },
{
    match result {
        Ok(_) => UniencErrorNative::success(),
        Err(err) => err.to_native(),
    }
}

/// What a sample callback is called with: the serialized sample; an empty sample where the
/// encoder has none to give; or an error, the encoder's own or that the sample did not
/// serialize.
pub fn sample_reply(answer: Result<Option<EncodedSample>, UniencError>) -> (reply: SampleReply)
    requires
        answer matches Err(err) ==> err.has_c_text(),
    ensures
        is_reply_to(reply, answer),
{
    let result: Result<UniencSampleData, UniencError> = match answer {
        Ok(Some(sample)) => match sample.serialized {
            Some(bytes) => Ok(
                UniencSampleData {
                    data: bytes,
                    timestamp_bits: sample.timestamp_bits,
                    kind: sample.kind,
                },
            ),
            None => {
                Err(UniencError::encoding_error("Failed to serialize encoded data"))
            },
        },
        Ok(None) => Ok(
            UniencSampleData {
                data: Vec::new(),
                timestamp_bits: 0,
                kind: UniencSampleKind::Interpolated,
            },
        ),
        Err(err) => Err(err),
    };
    proof {
        reveal_strlit("Failed to serialize encoded data");
    }
    match result {
        Ok(sample) => SampleReply { sample: Some(sample), error: UniencErrorNative::success() },
        Err(err) => SampleReply { sample: None, error: err.to_native() },
    }
}

/// A sample reply carries a sample exactly where the encoder answered and what it answered
/// serialized, and then it reports success. Without a sample it reports an error, unless the
/// error that the encoder itself gave is of the kind of success.
pub proof fn law_sample_or_error(
    reply: SampleReply,
    answer: Result<Option<EncodedSample>, UniencError>,
)
    requires
        is_reply_to(reply, answer),
    ensures
        reply.sample is Some <==> (answer matches Ok(given) && (given matches Some(sample)
            ==> sample.serialized is Some)),
        reply.sample is Some ==> is_success(reply.error),
        reply.sample is None && reply.error.kind == UniencErrorKind::Success ==> (
        answer matches Err(err) && err.kind == UniencErrorKind::Success),
{
}

/// A sample that serializes is passed on as it is: its own bytes, its own time stamp and its own
/// kind, whatever they are, and success.
pub proof fn law_sample_is_passed_on_unchanged(
    sample: EncodedSample,
    bytes: Vec<u8>,
    reply: SampleReply,
)
    requires
        sample.serialized == Some(bytes),
        call_ensures(
            sample_reply,
            (Ok::<Option<EncodedSample>, UniencError>(Some(sample)),),
            reply,
        ),
    ensures
        call_requires(sample_reply, (Ok::<Option<EncodedSample>, UniencError>(Some(sample)),)),
        reply.error.kind is Success,
        reply.error.message is None,
        reply.sample matches Some(passed) && {
            &&& passed.data@ == bytes@
            &&& passed.timestamp_bits == sample.timestamp_bits
            &&& passed.kind == sample.kind
        },
{
}

/// Where the encoder has no sample to give, the reply is an empty sample at time zero, and
/// success.
pub proof fn law_no_sample_is_an_empty_one(reply: SampleReply)
    requires
        call_ensures(sample_reply, (Ok::<Option<EncodedSample>, UniencError>(None),), reply),
    ensures
        call_requires(sample_reply, (Ok::<Option<EncodedSample>, UniencError>(None),)),
        reply.error.kind is Success,
        reply.error.message is None,
        reply.sample matches Some(empty) && {
            &&& empty.data@.len() == 0
            &&& empty.timestamp_bits == 0
            &&& empty.kind is Interpolated
        },
{
}

/// A sample that does not serialize is not passed on: whatever its time stamp and its kind, the
/// reply is an encoding error, and the text that says so as a C string.
pub proof fn law_unserialized_sample_is_an_error(sample: EncodedSample, reply: SampleReply)
    requires
        sample.serialized is None,
        call_ensures(
            sample_reply,
            (Ok::<Option<EncodedSample>, UniencError>(Some(sample)),),
            reply,
        ),
    ensures
        call_requires(sample_reply, (Ok::<Option<EncodedSample>, UniencError>(Some(sample)),)),
        reply.sample is None,
        reply.error.kind is EncodingError,
        reply.error.message matches Some(bytes) && bytes@ == encode_utf8(
            "Failed to serialize encoded data"@,
        ).push(0u8),
{
}

/// An error is passed on as it is, with or without a sample to go with it: its own kind, and its
/// own text, whole, as a C string. Any error whose text has no NUL in it is accepted.
pub proof fn law_error_is_passed_on_unchanged(
    err: UniencError,
    sample: SampleReply,
    unit: UniencErrorNative,
)
    requires
        call_ensures(
            sample_reply,
            (Err::<Option<EncodedSample>, UniencError>(err),),
            sample,
        ),
        call_ensures(unit_reply, (&Err::<(), UniencError>(err),), unit),
    ensures
        (err.message matches Some(text) ==> forall|i: int|
            0 <= i < text@.len() ==> #[trigger] text@[i] != '\0') ==> {
            &&& call_requires(sample_reply, (Err::<Option<EncodedSample>, UniencError>(err),))
            &&& call_requires(unit_reply, (&Err::<(), UniencError>(err),))
        },
        sample.sample is None,
        sample.error.kind == err.kind,
        unit.kind == err.kind,
        match err.message {
            Some(text) => {
                &&& sample.error.message matches Some(bytes) && bytes@ == encode_utf8(text@).push(
                    0u8,
                )
                &&& unit.message matches Some(bytes) && bytes@ == encode_utf8(text@).push(0u8)
            },
            None => sample.error.message is None && unit.message is None,
        },
{
}

/// Success without data is passed on as such.
pub proof fn law_success_is_passed_on(unit: UniencErrorNative)
    requires
        call_ensures(unit_reply, (&Ok::<(), UniencError>(()),), unit),
    ensures
        call_requires(unit_reply, (&Ok::<(), UniencError>(()),)),
        unit.kind is Success,
        unit.message is None,
{
}

} // verus!
