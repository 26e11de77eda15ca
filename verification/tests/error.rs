use unienc::error::{
    CategorizedError, ErrorCategory, UniencError, UniencErrorKind, UniencErrorNative,
};

const CATEGORIES: [(ErrorCategory, UniencErrorKind, u32); 10] = [
    (ErrorCategory::General, UniencErrorKind::Error, 1),
    (
        ErrorCategory::Initialization,
        UniencErrorKind::InitializationError,
        2,
    ),
    (
        ErrorCategory::Configuration,
        UniencErrorKind::ConfigurationError,
        3,
    ),
    (
        ErrorCategory::ResourceAllocation,
        UniencErrorKind::ResourceAllocationError,
        4,
    ),
    (ErrorCategory::Encoding, UniencErrorKind::EncodingError, 5),
    (ErrorCategory::Muxing, UniencErrorKind::MuxingError, 6),
    (
        ErrorCategory::Communication,
        UniencErrorKind::CommunicationError,
        7,
    ),
    (ErrorCategory::Timeout, UniencErrorKind::TimeoutError, 8),
    (ErrorCategory::InvalidInput, UniencErrorKind::InvalidInput, 9),
    (ErrorCategory::Platform, UniencErrorKind::PlatformError, 10),
];

#[test]
fn categories_map_to_kinds_and_codes() {
    for (category, kind, code) in CATEGORIES {
        assert_eq!(UniencErrorKind::from(category), kind);
        assert_eq!(kind.code(), code);
    }
    assert_eq!(UniencErrorKind::Success.code(), 0);
}

#[test]
fn codes_are_the_declared_order() {
    for (_, kind, code) in CATEGORIES {
        assert_eq!(kind as u32, code);
    }
    assert_eq!(UniencErrorKind::Success as u32, 0);
}

#[test]
fn from_common_keeps_the_text() {
    for (category, kind, _) in CATEGORIES {
        let err = UniencError::from_common(CategorizedError {
            category,
            message: "text".to_string(),
        });
        assert_eq!(err.kind, kind);
        assert_eq!(err.message, Some("text".to_string()));
    }
}

#[test]
fn constructors_set_kind_and_message() {
    let cases = [
        (
            UniencError::initialization_error("m"),
            UniencErrorKind::InitializationError,
        ),
        (
            UniencError::configuration_error("m"),
            UniencErrorKind::ConfigurationError,
        ),
        (
            UniencError::resource_allocation_error("m"),
            UniencErrorKind::ResourceAllocationError,
        ),
        (
            UniencError::encoding_error("m"),
            UniencErrorKind::EncodingError,
        ),
        (UniencError::muxing_error("m"), UniencErrorKind::MuxingError),
        (
            UniencError::communication_error("m"),
            UniencErrorKind::CommunicationError,
        ),
        (
            UniencError::timeout_error("m"),
            UniencErrorKind::TimeoutError,
        ),
        (
            UniencError::invalid_input_error("m"),
            UniencErrorKind::InvalidInput,
        ),
        (
            UniencError::platform_error("m"),
            UniencErrorKind::PlatformError,
        ),
    ];
    for (err, kind) in cases {
        assert_eq!(
            err,
            UniencError {
                kind,
                message: Some("m".to_string())
            }
        );
    }
}

#[test]
fn constructors_take_owned_strings_too() {
    let err = UniencError::muxing_error(String::from("owned"));
    assert_eq!(err.message.as_deref(), Some("owned"));
}

#[test]
fn native_message_is_a_c_string() {
    let native = UniencError::platform_error("\u{e9}!").to_native();
    assert_eq!(native.kind, UniencErrorKind::PlatformError);
    assert_eq!(native.message, Some(vec![0xc3, 0xa9, b'!', 0]));
    let bytes = native.message.unwrap();
    let text = std::str::from_utf8(&bytes[..bytes.len() - 1]).unwrap();
    assert_eq!(text, "\u{e9}!");
}

#[test]
fn empty_message_is_a_lone_terminator() {
    let native = UniencError::timeout_error("").to_native();
    assert_eq!(native.message, Some(vec![0]));
}

#[test]
fn success_has_no_message() {
    let expected = UniencErrorNative {
        kind: UniencErrorKind::Success,
        message: None,
    };
    assert_eq!(UniencErrorNative::success(), expected);
    assert_eq!(UniencError::success().to_native(), expected);
}

#[test]
fn with_native_calls_once_with_the_native_form() {
    let mut seen = Vec::new();
    UniencError::encoding_error("x").with_native(|native| seen.push(native.clone()));
    assert_eq!(
        seen,
        vec![UniencErrorNative {
            kind: UniencErrorKind::EncodingError,
            message: Some(vec![b'x', 0])
        }]
    );
}
