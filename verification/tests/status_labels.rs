use opus4j::status::{
    translate_error, NativeError, OPUS_ALLOC_FAIL, OPUS_BAD_ARG, OPUS_BUFFER_TOO_SMALL,
    OPUS_INTERNAL_ERROR, OPUS_INVALID_PACKET, OPUS_INVALID_STATE, OPUS_OK, OPUS_RESET_STATE,
    OPUS_UNIMPLEMENTED,
};

#[test]
fn status_constants_have_the_codec_values() {
    assert_eq!(OPUS_OK, 0);
    assert_eq!(OPUS_BAD_ARG, -1);
    assert_eq!(OPUS_BUFFER_TOO_SMALL, -2);
    assert_eq!(OPUS_INTERNAL_ERROR, -3);
    assert_eq!(OPUS_INVALID_PACKET, -4);
    assert_eq!(OPUS_UNIMPLEMENTED, -5);
    assert_eq!(OPUS_INVALID_STATE, -6);
    assert_eq!(OPUS_ALLOC_FAIL, -7);
    assert_eq!(OPUS_RESET_STATE, 4028);
}

#[test]
fn translate_error_names_each_known_code() {
    assert_eq!(translate_error(-1), "OPUS_BAD_ARG");
    assert_eq!(translate_error(-2), "OPUS_BUFFER_TOO_SMALL");
    assert_eq!(translate_error(-3), "OPUS_INTERNAL_ERROR");
    assert_eq!(translate_error(-4), "OPUS_INVALID_PACKET");
    assert_eq!(translate_error(-5), "OPUS_UNIMPLEMENTED");
    assert_eq!(translate_error(-6), "OPUS_INVALID_STATE");
    assert_eq!(translate_error(-7), "OPUS_ALLOC_FAIL");
}

#[test]
fn translate_error_by_constant() {
    assert_eq!(translate_error(OPUS_BAD_ARG), "OPUS_BAD_ARG");
    assert_eq!(translate_error(OPUS_ALLOC_FAIL), "OPUS_ALLOC_FAIL");
    assert_eq!(translate_error(OPUS_OK), "UNKNOWN");
}

#[test]
fn translate_error_unknown_outside_the_known_set() {
    assert_eq!(translate_error(0), "UNKNOWN");
    assert_eq!(translate_error(1), "UNKNOWN");
    assert_eq!(translate_error(-8), "UNKNOWN");
    assert_eq!(translate_error(4028), "UNKNOWN");
    assert_eq!(translate_error(i32::MIN), "UNKNOWN");
    assert_eq!(translate_error(i32::MAX), "UNKNOWN");
}

#[test]
fn every_negative_code_has_a_label() {
    let mut code: i32 = -1;
    while code >= -5000 {
        let label = translate_error(code);
        assert!(!label.is_empty());
        if code < -7 {
            assert_eq!(label, "UNKNOWN");
        } else {
            assert_ne!(label, "UNKNOWN");
        }
        code -= 1;
    }
    assert!(!translate_error(i32::MIN).is_empty());
}

#[test]
fn classify_tells_the_failures_apart() {
    assert_eq!(NativeError::classify(-1), NativeError::BadArgument);
    assert_eq!(NativeError::classify(-2), NativeError::BufferTooSmall);
    assert_eq!(NativeError::classify(-3), NativeError::InternalError);
    assert_eq!(NativeError::classify(-4), NativeError::InvalidPacket);
    assert_eq!(NativeError::classify(-5), NativeError::Unimplemented);
    assert_eq!(NativeError::classify(-6), NativeError::InvalidState);
    assert_eq!(NativeError::classify(-7), NativeError::AllocationFailure);
    assert_eq!(NativeError::classify(-8), NativeError::Unknown);
    assert_eq!(NativeError::classify(0), NativeError::Unknown);
    assert_eq!(NativeError::classify(7), NativeError::Unknown);
}

#[test]
fn label_of_each_failure() {
    assert_eq!(NativeError::BadArgument.label(), "OPUS_BAD_ARG");
    assert_eq!(NativeError::BufferTooSmall.label(), "OPUS_BUFFER_TOO_SMALL");
    assert_eq!(NativeError::InternalError.label(), "OPUS_INTERNAL_ERROR");
    assert_eq!(NativeError::InvalidPacket.label(), "OPUS_INVALID_PACKET");
    assert_eq!(NativeError::Unimplemented.label(), "OPUS_UNIMPLEMENTED");
    assert_eq!(NativeError::InvalidState.label(), "OPUS_INVALID_STATE");
    assert_eq!(NativeError::AllocationFailure.label(), "OPUS_ALLOC_FAIL");
    assert_eq!(NativeError::Unknown.label(), "UNKNOWN");
}
