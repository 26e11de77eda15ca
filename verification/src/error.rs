//! Errors, and the form in which they cross the C interface.

use vstd::prelude::*;
use vstd::std_specs::convert::FromSpecImpl;
use vstd::utf8::{char_u32_cast, decode_utf8, encode_scalar, encode_utf8, encode_utf8_decode_utf8};

verus! {

/// Errors of the platform-independent part of the encoder.
#[derive(Clone, Copy, Debug, PartialEq, Eq, Structural)]
pub enum CommonError {
    /// The buffers still in use leave no room for the requested one.
    BufferPoolExceeded,
}

/// Errors of the FFmpeg muxer.
#[derive(Clone, Debug, PartialEq)]
pub enum FFmpegError {
    /// The process was started, but its pipes are not there.
    InputsNotAvailable,
    /// The pipe has been closed.
    InputNotAvailable,
    /// The process reported failure.
    ProcessFailed,
    /// Starting the process, or writing to it, failed; the text says how.
    Io(String),
}

/// Errors of the Metal side.
#[derive(Clone, Debug, PartialEq)]
pub enum AppleError {
    /// Nothing has been set up for the Metal device yet.
    MetalNotInitialized,
    /// What may be set only once is set already.
    GlobalStateSetFailed,
    CommandBufferNotAvailable,
    RenderCommandEncoderCreationFailed,
    NonNullCreationFailed,
    /// A pixel buffer, or a pool of them, was to be made and is not there.
    PixelBufferNull,
    /// A texture was to be made and is not there.
    MetalTextureGetFailed,
    /// The GPU's work ended without a word.
    CompletionLost,
    /// A call into the system failed with this status.
    OsStatus(i32),
    Other(String),
}

/// What an error is about.
#[derive(Clone, Copy, Debug, PartialEq, Eq, Structural)]
pub enum ErrorCategory {
    General,
    Initialization,
    Configuration,
    ResourceAllocation,
    Encoding,
    Muxing,
    Communication,
    Timeout,
    InvalidInput,
    Platform,
}

/// What an error reports of itself: its category, and its text.
#[derive(Clone, Debug, PartialEq)]
pub struct CategorizedError {
    pub category: ErrorCategory,
    pub message: String,
}

/// What a call across the C interface came to.
#[derive(Clone, Copy, Debug, PartialEq, Eq, Structural)]
pub enum UniencErrorKind {
    Success,
    Error,
    InitializationError,
    ConfigurationError,
    ResourceAllocationError,
    EncodingError,
    MuxingError,
    CommunicationError,
    TimeoutError,
    InvalidInput,
    PlatformError,
}

impl UniencErrorKind {
    /// The number that stands for the kind on the other side of the interface.
    pub open spec fn spec_code(self) -> u32 {
        match self {
            UniencErrorKind::Success => 0,
            UniencErrorKind::Error => 1,
            UniencErrorKind::InitializationError => 2,
            UniencErrorKind::ConfigurationError => 3,
            UniencErrorKind::ResourceAllocationError => 4,
            UniencErrorKind::EncodingError => 5,
            UniencErrorKind::MuxingError => 6,
            UniencErrorKind::CommunicationError => 7,
            UniencErrorKind::TimeoutError => 8,
            UniencErrorKind::InvalidInput => 9,
            UniencErrorKind::PlatformError => 10,
        }
    }

    /// The number that stands for the kind on the other side of the interface.
    pub fn code(self) -> (code: u32)
        ensures
            code == self.spec_code(),
    {
        match self {
            UniencErrorKind::Success => 0,
            UniencErrorKind::Error => 1,
            UniencErrorKind::InitializationError => 2,
            UniencErrorKind::ConfigurationError => 3,
            UniencErrorKind::ResourceAllocationError => 4,
            UniencErrorKind::EncodingError => 5,
            UniencErrorKind::MuxingError => 6,
            UniencErrorKind::CommunicationError => 7,
            UniencErrorKind::TimeoutError => 8,
            UniencErrorKind::InvalidInput => 9,
            UniencErrorKind::PlatformError => 10,
        }
    }
}

/// The kind under which errors of `category` cross the interface.
pub open spec fn kind_of_category(category: ErrorCategory) -> UniencErrorKind {
    match category {
        ErrorCategory::General => UniencErrorKind::Error,
        ErrorCategory::Initialization => UniencErrorKind::InitializationError,
        ErrorCategory::Configuration => UniencErrorKind::ConfigurationError,
        ErrorCategory::ResourceAllocation => UniencErrorKind::ResourceAllocationError,
        ErrorCategory::Encoding => UniencErrorKind::EncodingError,
        ErrorCategory::Muxing => UniencErrorKind::MuxingError,
        ErrorCategory::Communication => UniencErrorKind::CommunicationError,
        ErrorCategory::Timeout => UniencErrorKind::TimeoutError,
        ErrorCategory::InvalidInput => UniencErrorKind::InvalidInput,
        ErrorCategory::Platform => UniencErrorKind::PlatformError,
    }
}

impl FromSpecImpl<ErrorCategory> for UniencErrorKind {
    open spec fn obeys_from_spec() -> bool {
        true
    }

    open spec fn from_spec(category: ErrorCategory) -> Self {
        kind_of_category(category)
    }
}

impl From<ErrorCategory> for UniencErrorKind {
    fn from(category: ErrorCategory) -> (kind: Self) {
        match category {
            ErrorCategory::General => UniencErrorKind::Error,
            ErrorCategory::Initialization => UniencErrorKind::InitializationError,
            ErrorCategory::Configuration => UniencErrorKind::ConfigurationError,
            ErrorCategory::ResourceAllocation => UniencErrorKind::ResourceAllocationError,
            ErrorCategory::Encoding => UniencErrorKind::EncodingError,
            ErrorCategory::Muxing => UniencErrorKind::MuxingError,
            ErrorCategory::Communication => UniencErrorKind::CommunicationError,
            ErrorCategory::Timeout => UniencErrorKind::TimeoutError,
            ErrorCategory::InvalidInput => UniencErrorKind::InvalidInput,
            ErrorCategory::Platform => UniencErrorKind::PlatformError,
        }
    }
}

/// `String::from` on a string slice: the string holds the characters of the slice.
pub assume_specification<'a>[ <String as From<&'a str>>::from ](s: &str) -> (string: String)
    ensures
        string@ == s@,
;

/// An error on its way to the other side of the C interface.
#[derive(Clone, Debug, PartialEq)]
pub struct UniencError {
    pub kind: UniencErrorKind,
    pub message: Option<String>,
}

/// An error as the other side of the C interface reads it. The message is a C string: the bytes
/// of its text in UTF-8, and a zero byte behind them. `None` stands for the null pointer.
#[derive(Clone, Debug, PartialEq)]
pub struct UniencErrorNative {
    pub kind: UniencErrorKind,
    pub message: Option<Vec<u8>>,
}

/// `text` has no NUL in it, so that the end of a C string of it is where the text ends.
pub open spec fn is_c_text(text: Seq<char>) -> bool {
    !text.contains('\0')
}

/// The bytes of a C string that holds `text`.
pub open spec fn c_string(text: Seq<char>) -> Seq<u8> {
    encode_utf8(text).push(0u8)
}

/// `err` is of kind `kind`, and its message is what `msg` converts to.
pub open spec fn reports<M: Into<String>>(
    err: UniencError,
    kind: UniencErrorKind,
    msg: M,
) -> bool {
    &&& err.kind == kind
    &&& err.message matches Some(text)
    &&& call_ensures(<M as Into<String>>::into, (msg,), text)
}

impl UniencErrorNative {
    /// What is passed along where nothing went wrong.
    pub fn success() -> (native: Self)
        ensures
            native.kind == UniencErrorKind::Success,
            native.message is None,
    {
        UniencErrorNative { kind: UniencErrorKind::Success, message: None }
    }

    /// `self` is the native form of `err`.
    pub open spec fn is_native_of(&self, err: UniencError) -> bool {
        &&& self.kind == err.kind
        &&& match err.message {
            Some(text) => self.message matches Some(bytes) && bytes@ == c_string(text@),
            None => self.message is None,
        }
    }
}

impl UniencError {
    /// The error that stands for none.
    pub fn success() -> (err: Self)
        ensures
            err.kind == UniencErrorKind::Success,
            err.message is None,
    {
        UniencError { kind: UniencErrorKind::Success, message: None }
    }

    /// The message, where there is one, can be written as a C string.
    pub open spec fn has_c_text(&self) -> bool {
        self.message matches Some(text) ==> is_c_text(text@)
    }

    /// The native form of the error.
    pub fn to_native(&self) -> (native: UniencErrorNative)
        requires
            self.has_c_text(),
        ensures
            native.is_native_of(*self),
    {
        let message = match &self.message {
            Some(text) => {
                let mut bytes: Vec<u8> = Vec::new();
                bytes.extend_from_slice(text.as_str().as_bytes());
                assert(bytes@ =~= encode_utf8(text@));
                bytes.push(0u8);
                Some(bytes)
            },
            None => None,
        };
        UniencErrorNative { kind: self.kind, message }
    }

    /// Calls `f` once, with the native form of the error.
    pub fn with_native<F: FnOnce(&UniencErrorNative)>(&self, f: F)
        requires
            self.has_c_text(),
            forall|native: &UniencErrorNative|
                native.is_native_of(*self) ==> call_requires(f, (native,)),
        ensures
            exists|native: &UniencErrorNative|
                native.is_native_of(*self) && #[trigger] call_ensures(f, (native,), ()),
    {
        let native = self.to_native();
        f(&native);
    }

    /// The error under which `err` crosses the interface: its category decides the kind, and its
    /// text is the message.
    pub fn from_common(err: CategorizedError) -> (result: Self)
        ensures
            result.kind == kind_of_category(err.category),
            result.message == Some(err.message),
    {
        let kind = UniencErrorKind::from(err.category);
        UniencError { kind, message: Some(err.message) }
    }

    pub fn initialization_error(msg: impl Into<String>) -> (err: Self)
        ensures
            reports(err, UniencErrorKind::InitializationError, msg),
    {
        UniencError { kind: UniencErrorKind::InitializationError, message: Some(msg.into()) }
    }

    pub fn configuration_error(msg: impl Into<String>) -> (err: Self)
        ensures
            reports(err, UniencErrorKind::ConfigurationError, msg),
    {
        UniencError { kind: UniencErrorKind::ConfigurationError, message: Some(msg.into()) }
    }

    pub fn resource_allocation_error(msg: impl Into<String>) -> (err: Self)
        ensures
            reports(err, UniencErrorKind::ResourceAllocationError, msg),
    {
        UniencError { kind: UniencErrorKind::ResourceAllocationError, message: Some(msg.into()) }
    }

    pub fn encoding_error(msg: impl Into<String>) -> (err: Self)
        ensures
            reports(err, UniencErrorKind::EncodingError, msg),
    {
        UniencError { kind: UniencErrorKind::EncodingError, message: Some(msg.into()) }
    }

    pub fn muxing_error(msg: impl Into<String>) -> (err: Self)
        ensures
            reports(err, UniencErrorKind::MuxingError, msg),
    {
        UniencError { kind: UniencErrorKind::MuxingError, message: Some(msg.into()) }
    }

    pub fn communication_error(msg: impl Into<String>) -> (err: Self)
        ensures
            reports(err, UniencErrorKind::CommunicationError, msg),
    {
        UniencError { kind: UniencErrorKind::CommunicationError, message: Some(msg.into()) }
    }

    pub fn timeout_error(msg: impl Into<String>) -> (err: Self)
        ensures
            reports(err, UniencErrorKind::TimeoutError, msg),
    {
        UniencError { kind: UniencErrorKind::TimeoutError, message: Some(msg.into()) }
    }

    pub fn invalid_input_error(msg: impl Into<String>) -> (err: Self)
        ensures
            reports(err, UniencErrorKind::InvalidInput, msg),
    {
        UniencError { kind: UniencErrorKind::InvalidInput, message: Some(msg.into()) }
    }

    pub fn platform_error(msg: impl Into<String>) -> (err: Self)
        ensures
            reports(err, UniencErrorKind::PlatformError, msg),
    {
        UniencError { kind: UniencErrorKind::PlatformError, message: Some(msg.into()) }
    }
}

/// Every kind has a number of its own.
pub proof fn law_codes_tell_kinds_apart(a: UniencErrorKind, b: UniencErrorKind)
    ensures
        a.spec_code() == b.spec_code() <==> a == b,
        a.spec_code() <= 10,
{
}

/// No category is mistaken for success, and no two categories share a kind.
pub proof fn law_categories_tell_apart(a: ErrorCategory, b: ErrorCategory)
    ensures
        kind_of_category(a) != UniencErrorKind::Success,
        kind_of_category(a) == kind_of_category(b) <==> a == b,
{
}

/// A C string reads back as the text it was made of: no byte before its last is zero, the last
/// one is, and what stands before it decodes to the text.
pub proof fn law_c_string_reads_back(text: Seq<char>)
    requires
        is_c_text(text),
    ensures
        c_string(text).last() == 0u8,
        forall|i: int| 0 <= i < c_string(text).len() - 1 ==> #[trigger] c_string(text)[i] != 0u8,
        decode_utf8(c_string(text).drop_last()) == text,
{
    lemma_no_zero_byte(text);
    encode_utf8_decode_utf8(text);
    assert(c_string(text).drop_last() =~= encode_utf8(text));
}

proof fn lemma_no_zero_byte(text: Seq<char>)
    requires
        is_c_text(text),
    ensures
        forall|i: int| 0 <= i < encode_utf8(text).len() ==> #[trigger] encode_utf8(text)[i] != 0u8,
    decreases text.len(),
{
    if text.len() > 0 {
        let rest = text.drop_first();
        assert(text[0] != '\0');
        assert forall|i: int| 0 <= i < rest.len() implies rest[i] != '\0' by {
            assert(rest[i] == text[i + 1]);
        }
        lemma_no_zero_byte(rest);
        let scalar = text[0] as u32;
        if scalar == 0 {
            char_u32_cast(text[0], scalar);
            char_u32_cast('\0', 0u32);
        }
        lemma_scalar_no_zero_byte(scalar);
        let head = encode_scalar(scalar);
        assert forall|i: int| 0 <= i < encode_utf8(text).len() implies #[trigger] encode_utf8(
            text,
        )[i] != 0u8 by {
            if i < head.len() {
                assert(encode_utf8(text)[i] == head[i]);
            } else {
                assert(encode_utf8(text)[i] == encode_utf8(rest)[i - head.len()]);
            }
        }
    }
}

proof fn lemma_scalar_no_zero_byte(scalar: u32)
    requires
        scalar != 0,
    ensures
        forall|i: int| 0 <= i < encode_scalar(scalar).len() ==> encode_scalar(scalar)[i] != 0u8,
{
    assert(0 < scalar <= 0x7f ==> (scalar & 0x7F) as u8 != 0) by (bit_vector);
    assert(forall|b: u8| 0xC0 | b != 0) by (bit_vector);
    assert(forall|b: u8| 0xE0 | b != 0) by (bit_vector);
    assert(forall|b: u8| 0xF0 | b != 0) by (bit_vector);
    assert(forall|b: u8| 0x80 | b != 0) by (bit_vector);
}

/// The native form of an error has the kind of the error, and its text, whole, as a C string: the
/// bytes of the text in UTF-8, and one zero byte behind them. An error without a text has none in
/// its native form either. Any error whose text has no NUL in it has a native form.
pub proof fn law_native_form_keeps_kind_and_text(err: UniencError, native: UniencErrorNative)
    requires
        call_ensures(UniencError::to_native, (&err,), native),
    ensures
        (err.message matches Some(text) ==> forall|i: int|
            0 <= i < text@.len() ==> #[trigger] text@[i] != '\0') ==> call_requires(
            UniencError::to_native,
            (&err,),
        ),
        native.kind == err.kind,
        native.message is Some <==> err.message is Some,
        err.message matches Some(text) ==> (native.message matches Some(bytes) && bytes@
            == encode_utf8(text@).push(0u8)),
{
}

/// A callback that takes a native error gets the one of this very error.
pub proof fn law_callback_gets_the_native_form<F: FnOnce(&UniencErrorNative)>(
    err: UniencError,
    f: F,
)
    requires
        call_ensures(UniencError::with_native::<F>, (&err, f), ()),
    ensures
        (err.message matches Some(text) ==> forall|i: int|
            0 <= i < text@.len() ==> #[trigger] text@[i] != '\0') && (forall|
            native: &UniencErrorNative,
        | call_requires(f, (native,))) ==> call_requires(
            UniencError::with_native::<F>,
            (&err, f),
        ),
        exists|native: &UniencErrorNative| {
            &&& #[trigger] call_ensures(f, (native,), ())
            &&& native.kind == err.kind
            &&& native.message is Some <==> err.message is Some
            &&& err.message matches Some(text) ==> (native.message matches Some(bytes) && bytes@
                == encode_utf8(text@).push(0u8))
        },
{
    let native = choose|native: &UniencErrorNative|
        native.is_native_of(err) && #[trigger] call_ensures(f, (native,), ());
    assert(call_ensures(f, (native,), ()));
}

/// An error keeps its text on its way to the interface, and its category decides the kind: the
/// same category the same kind whatever the text, another category another kind, and none of
/// them success.
pub proof fn law_common_errors_keep_text_and_category(
    a: CategorizedError,
    b: CategorizedError,
    x: UniencError,
    y: UniencError,
)
    requires
        call_ensures(UniencError::from_common, (a,), x),
        call_ensures(UniencError::from_common, (b,), y),
    ensures
        call_requires(UniencError::from_common, (a,)),
        x.message matches Some(text) && text@ == a.message@,
        x.kind !is Success,
        x.kind == y.kind <==> a.category == b.category,
        a.category is General <==> x.kind is Error,
        a.category is Initialization <==> x.kind is InitializationError,
        a.category is Configuration <==> x.kind is ConfigurationError,
        a.category is ResourceAllocation <==> x.kind is ResourceAllocationError,
        a.category is Encoding <==> x.kind is EncodingError,
        a.category is Muxing <==> x.kind is MuxingError,
        a.category is Communication <==> x.kind is CommunicationError,
        a.category is Timeout <==> x.kind is TimeoutError,
        a.category is InvalidInput <==> x.kind is InvalidInput,
        a.category is Platform <==> x.kind is PlatformError,
{
}

/// An error that is made from a message has the kind that its constructor names, and holds what
/// the message converts to, whatever that is.
pub proof fn law_constructors_keep_the_message<M: Into<String>>(
    msg: M,
    initialization: UniencError,
    configuration: UniencError,
    resource_allocation: UniencError,
    encoding: UniencError,
    muxing: UniencError,
    communication: UniencError,
    timeout: UniencError,
    invalid_input: UniencError,
    platform: UniencError,
)
    requires
        call_ensures(UniencError::initialization_error, (msg,), initialization),
        call_ensures(UniencError::configuration_error, (msg,), configuration),
        call_ensures(UniencError::resource_allocation_error, (msg,), resource_allocation),
        call_ensures(UniencError::encoding_error, (msg,), encoding),
        call_ensures(UniencError::muxing_error, (msg,), muxing),
        call_ensures(UniencError::communication_error, (msg,), communication),
        call_ensures(UniencError::timeout_error, (msg,), timeout),
        call_ensures(UniencError::invalid_input_error, (msg,), invalid_input),
        call_ensures(UniencError::platform_error, (msg,), platform),
    ensures
        initialization.kind is InitializationError,
        configuration.kind is ConfigurationError,
        resource_allocation.kind is ResourceAllocationError,
        encoding.kind is EncodingError,
        muxing.kind is MuxingError,
        communication.kind is CommunicationError,
        timeout.kind is TimeoutError,
        invalid_input.kind is InvalidInput,
        platform.kind is PlatformError,
        initialization.message matches Some(text) && call_ensures(
            <M as Into<String>>::into,
            (msg,),
            text,
        ),
        configuration.message matches Some(text) && call_ensures(
            <M as Into<String>>::into,
            (msg,),
            text,
        ),
        resource_allocation.message matches Some(text) && call_ensures(
            <M as Into<String>>::into,
            (msg,),
            text,
        ),
        encoding.message matches Some(text) && call_ensures(
            <M as Into<String>>::into,
            (msg,),
            text,
        ),
        muxing.message matches Some(text) && call_ensures(
            <M as Into<String>>::into,
            (msg,),
            text,
        ),
        communication.message matches Some(text) && call_ensures(
            <M as Into<String>>::into,
            (msg,),
            text,
        ),
        timeout.message matches Some(text) && call_ensures(
            <M as Into<String>>::into,
            (msg,),
            text,
        ),
        invalid_input.message matches Some(text) && call_ensures(
            <M as Into<String>>::into,
            (msg,),
            text,
        ),
        platform.message matches Some(text) && call_ensures(
            <M as Into<String>>::into,
            (msg,),
            text,
        ),
{
}

/// The numbers of the kinds tell them apart, run from 0 to 10, and only success is 0.
pub proof fn law_numbers_tell_kinds_apart(a: UniencErrorKind, b: UniencErrorKind, m: u32, n: u32)
    requires
        call_ensures(UniencErrorKind::code, (a,), m),
        call_ensures(UniencErrorKind::code, (b,), n),
    ensures
        m == n <==> a == b,
        m <= 10,
        m == 0 <==> a is Success,
{
}

} // verus!
