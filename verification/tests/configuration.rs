use opus4j::config::{
    ApplicationMode, Channels, OPUS_APPLICATION_AUDIO, OPUS_APPLICATION_RESTRICTED_LOWDELAY,
    OPUS_APPLICATION_VOIP,
};
use opus4j::error::{BridgeError, Parameter};

#[test]
fn channel_numbers_one_and_two_are_valid() {
    assert_eq!(Channels::from_count(1), Ok(Channels::Mono));
    assert_eq!(Channels::from_count(2), Ok(Channels::Stereo));
}

#[test]
fn other_channel_numbers_are_invalid_arguments() {
    for value in [0, 3, -1, 6, i32::MIN, i32::MAX] {
        assert_eq!(
            Channels::from_count(value),
            Err(BridgeError::InvalidArgument { parameter: Parameter::Channels, value })
        );
    }
}

#[test]
fn channel_count_for_the_codec() {
    assert_eq!(Channels::Mono.count(), 1);
    assert_eq!(Channels::Stereo.count(), 2);
}

#[test]
fn channel_count_round_trips() {
    assert_eq!(Channels::from_count(Channels::Mono.count()), Ok(Channels::Mono));
    assert_eq!(Channels::from_count(Channels::Stereo.count()), Ok(Channels::Stereo));
}

#[test]
fn application_constants_have_the_codec_values() {
    assert_eq!(OPUS_APPLICATION_VOIP, 2048);
    assert_eq!(OPUS_APPLICATION_AUDIO, 2049);
    assert_eq!(OPUS_APPLICATION_RESTRICTED_LOWDELAY, 2051);
}

#[test]
fn application_numbers_of_the_host() {
    assert_eq!(ApplicationMode::from_host(1), ApplicationMode::VoiceOptimized);
    assert_eq!(ApplicationMode::from_host(2), ApplicationMode::LowDelay);
}

#[test]
fn unknown_application_number_falls_back_to_voice() {
    for value in [0, 3, -1, 2048, 2049, 2051, i32::MIN, i32::MAX] {
        assert_eq!(ApplicationMode::from_host(value), ApplicationMode::VoiceOptimized);
    }
}

#[test]
fn application_constant_of_each_profile() {
    assert_eq!(ApplicationMode::VoiceOptimized.native(), 2048);
    assert_eq!(ApplicationMode::LowDelay.native(), 2051);
    assert_eq!(ApplicationMode::GeneralAudio.native(), 2049);
}
