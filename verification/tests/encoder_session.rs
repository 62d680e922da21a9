use opus4j::config::{ApplicationMode, Channels};
use opus4j::decoder::Decoder;
use opus4j::encoder::{CreateEncoder, EncodeCall, Encoder, DEFAULT_PAYLOAD_SIZE};
use opus4j::error::{BridgeError, Operation, Parameter, SessionKind};
use opus4j::session::ResetCall;

const CLOSED: BridgeError = BridgeError::IllegalState { session: SessionKind::Encoder };

fn open_encoder(channels: i32, native: u64) -> Encoder {
    Encoder::create(48000, channels, 1).unwrap().finish(native, 0).unwrap()
}

#[test]
fn default_payload_size_is_1024() {
    assert_eq!(DEFAULT_PAYLOAD_SIZE, 1024);
}

#[test]
fn create_encoder_accepts_mono_and_stereo() {
    assert_eq!(
        Encoder::create(48000, 1, 1),
        Ok(CreateEncoder {
            sample_rate: 48000,
            channels: Channels::Mono,
            application: ApplicationMode::VoiceOptimized,
        })
    );
    assert_eq!(
        Encoder::create(24000, 2, 2),
        Ok(CreateEncoder {
            sample_rate: 24000,
            channels: Channels::Stereo,
            application: ApplicationMode::LowDelay,
        })
    );
}

#[test]
fn create_encoder_falls_back_to_voice() {
    for application in [0, 3, -1, 2049, i32::MAX] {
        let call = Encoder::create(48000, 2, application).unwrap();
        assert_eq!(call.application, ApplicationMode::VoiceOptimized);
        assert_eq!(call.application.native(), 2048);
    }
}

#[test]
fn create_encoder_rejects_other_channel_counts() {
    for channels in [0, 3, -1, 8, i32::MAX] {
        for application in [1, 2, 99] {
            assert_eq!(
                Encoder::create(48000, channels, application),
                Err(BridgeError::InvalidArgument {
                    parameter: Parameter::Channels,
                    value: channels
                })
            );
        }
    }
}

#[test]
fn created_encoder_is_open_with_defaults() {
    let encoder = open_encoder(2, 0x7f00_2000);
    assert!(encoder.is_open());
    assert_eq!(encoder.channels(), Channels::Stereo);
    assert_eq!(encoder.get_max_payload_size(), Ok(1024));
}

#[test]
fn failed_native_creation_of_an_encoder_is_an_io_failure() {
    let call = Encoder::create(44100, 1, 1).unwrap();
    let e = call.finish(0, -1).unwrap_err();
    assert_eq!(e, BridgeError::IoFailure { session: SessionKind::Encoder, code: -1 });
    assert_eq!(e.message(), "Failed to create encoder: OPUS_BAD_ARG");
    let e = call.finish(3, -7).unwrap_err();
    assert_eq!(e, BridgeError::IoFailure { session: SessionKind::Encoder, code: -7 });
    let e = call.finish(0, 0).unwrap_err();
    assert_eq!(e, BridgeError::IoFailure { session: SessionKind::Encoder, code: 0 });
}

#[test]
fn new_encoder_returns_the_status_on_failure() {
    assert_eq!(Encoder::new(Channels::Mono, 9, -3).unwrap_err(), -3);
    assert_eq!(Encoder::new(Channels::Mono, 0, 0).unwrap_err(), 0);
    let encoder = Encoder::new(Channels::Stereo, 9, 0).unwrap();
    assert!(encoder.is_open());
    assert_eq!(encoder.get_max_payload_size(), Ok(1024));
}

#[test]
fn set_max_payload_size_stores_a_positive_size() {
    let mut encoder = open_encoder(1, 1);
    assert_eq!(encoder.set_max_payload_size(4000), Ok(()));
    assert_eq!(encoder.get_max_payload_size(), Ok(4000));
    assert_eq!(encoder.set_max_payload_size(1), Ok(()));
    assert_eq!(encoder.get_max_payload_size(), Ok(1));
    assert_eq!(encoder.set_max_payload_size(i32::MAX), Ok(()));
    assert_eq!(encoder.get_max_payload_size(), Ok(i32::MAX));
}

#[test]
fn set_max_payload_size_rejects_zero_and_negative() {
    let mut encoder = open_encoder(1, 1);
    assert_eq!(encoder.set_max_payload_size(512), Ok(()));
    for size in [0, -1, -1024, i32::MIN] {
        assert_eq!(
            encoder.set_max_payload_size(size),
            Err(BridgeError::InvalidArgument { parameter: Parameter::MaxPayloadSize, value: size })
        );
        assert_eq!(encoder.get_max_payload_size(), Ok(512));
    }
}

#[test]
fn encode_call_for_a_stereo_frame() {
    let encoder = open_encoder(2, 88);
    let input = vec![0i16; 1920];
    let call = encoder.encode(&input).unwrap();
    assert_eq!(call.native, 88);
    assert_eq!(call.frame_size, 960);
    assert_eq!(call.max_data_bytes, 1024);
    assert_eq!(call.output, vec![0u8; 1024]);
}

#[test]
fn encode_call_for_a_mono_frame() {
    let encoder = open_encoder(1, 88);
    let input = vec![5i16; 480];
    let call = encoder.encode(&input).unwrap();
    assert_eq!(call.frame_size, 480);
    assert_eq!(call.max_data_bytes, 1024);
}

#[test]
fn encode_call_tolerates_a_length_that_is_no_multiple() {
    let encoder = open_encoder(2, 88);
    let input = vec![0i16; 1921];
    assert_eq!(encoder.encode(&input).unwrap().frame_size, 960);
    let input = vec![0i16; 1];
    assert_eq!(encoder.encode(&input).unwrap().frame_size, 0);
    let input: Vec<i16> = Vec::new();
    assert_eq!(encoder.encode(&input).unwrap().frame_size, 0);
}

#[test]
fn encode_call_follows_the_payload_limit() {
    let mut encoder = open_encoder(2, 88);
    encoder.set_max_payload_size(40).unwrap();
    let call = encoder.encode(&[0i16; 240]).unwrap();
    assert_eq!(call.max_data_bytes, 40);
    assert_eq!(call.output, vec![0u8; 40]);
    assert_eq!(call.frame_size, 120);
}

fn filled_call(bytes: Vec<u8>) -> EncodeCall {
    EncodeCall { native: 1, frame_size: 960, max_data_bytes: bytes.len() as i32, output: bytes }
}

#[test]
fn finished_encode_returns_the_packet() {
    let call = filled_call(vec![0xfc, 0xff, 0xfe, 0, 0, 0, 0]);
    assert_eq!(call.finish(3), Ok(vec![0xfcu8, 0xff, 0xfe]));
}

#[test]
fn finished_encode_with_an_empty_packet() {
    let call = filled_call(vec![1, 2, 3]);
    assert_eq!(call.finish(0), Ok(Vec::<u8>::new()));
}

#[test]
fn finished_encode_never_returns_more_than_the_buffer() {
    assert_eq!(filled_call(vec![1, 2, 3]).finish(3), Ok(vec![1u8, 2, 3]));
    assert_eq!(filled_call(vec![1, 2, 3]).finish(9), Ok(vec![1u8, 2, 3]));
}

#[test]
fn finished_encode_with_a_negative_result_is_a_runtime_failure() {
    for code in [-1, -2, -3, -99, i32::MIN] {
        assert_eq!(
            filled_call(vec![1, 2, 3]).finish(code),
            Err(BridgeError::RuntimeFailure { operation: Operation::Encode, code })
        );
    }
    let e = filled_call(vec![1]).finish(-2).unwrap_err();
    assert_eq!(e.message(), "Failed to encode: OPUS_BUFFER_TOO_SMALL");
}

#[test]
fn reset_call_of_an_open_encoder() {
    let encoder = open_encoder(1, 41);
    assert_eq!(encoder.reset_state(), Ok(ResetCall { native: 41, request: 4028 }));
    assert_eq!(ResetCall::new(41), ResetCall { native: 41, request: 4028 });
}

#[test]
fn finished_reset_of_an_encoder() {
    let call = open_encoder(1, 41).reset_state().unwrap();
    assert_eq!(call.finish(0), Ok(()));
    assert_eq!(
        call.finish(-1),
        Err(BridgeError::RuntimeFailure { operation: Operation::ResetState, code: -1 })
    );
}

#[test]
fn destroy_encoder_releases_the_native_encoder_once() {
    let mut encoder = open_encoder(2, 0xbeef);
    assert_eq!(encoder.destroy(), Some(0xbeef));
    assert!(!encoder.is_open());
    assert_eq!(encoder.destroy(), None);
    assert_eq!(encoder.destroy(), None);
}

#[test]
fn destroyed_encoder_refuses_every_operation() {
    let mut encoder = open_encoder(2, 12);
    encoder.set_max_payload_size(100).unwrap();
    encoder.destroy();
    assert_eq!(encoder.get_max_payload_size(), Err(CLOSED));
    assert_eq!(encoder.set_max_payload_size(200), Err(CLOSED));
    assert_eq!(encoder.encode(&[0i16; 1920]).unwrap_err(), CLOSED);
    assert_eq!(encoder.reset_state(), Err(CLOSED));
    assert_eq!(encoder.destroy(), None);
    assert_eq!(CLOSED.message(), "Encoder is closed");
}

#[test]
fn destroyed_encoder_still_rejects_a_bad_size_first() {
    let mut encoder = open_encoder(1, 12);
    encoder.destroy();
    assert_eq!(
        encoder.set_max_payload_size(0),
        Err(BridgeError::InvalidArgument { parameter: Parameter::MaxPayloadSize, value: 0 })
    );
}

#[test]
fn check_max_payload_size_accepts_only_positive_sizes() {
    assert_eq!(Encoder::check_max_payload_size(1), Ok(()));
    assert_eq!(Encoder::check_max_payload_size(1024), Ok(()));
    assert_eq!(Encoder::check_max_payload_size(i32::MAX), Ok(()));
    for size in [0, -1, i32::MIN] {
        let e = Encoder::check_max_payload_size(size).unwrap_err();
        assert_eq!(
            e,
            BridgeError::InvalidArgument { parameter: Parameter::MaxPayloadSize, value: size }
        );
    }
    assert_eq!(
        Encoder::check_max_payload_size(0).unwrap_err().message(),
        "Invalid maximum payload size: 0"
    );
}

// The codec is played by hand here: it reports a packet of three bytes for a
// silent frame, and a full frame of samples for that packet.
fn silent_round_trip(channels: i32, frame_size: i32) {
    let encoder = open_encoder(channels, 1);
    let mut decoder = Decoder::create(48000, channels).unwrap().finish(2, 0).unwrap();
    decoder.set_frame_size(frame_size).unwrap();

    let silence = vec![0i16; (channels * frame_size) as usize];
    let encode = encoder.encode(&silence).unwrap();
    assert_eq!(encode.frame_size, frame_size);
    let mut filled = encode;
    filled.output[0] = 0xf8;
    filled.output[1] = 0xff;
    filled.output[2] = 0xfe;
    let packet = filled.finish(3).unwrap();
    assert_eq!(packet, vec![0xf8u8, 0xff, 0xfe]);

    let decode = decoder.decode(Some(&packet), false).unwrap();
    assert!(decode.has_data);
    assert_eq!(decode.data_len, 3);
    assert_eq!(decode.frame_size, frame_size);
    assert_eq!(decode.output.len(), (channels * frame_size) as usize);
    let samples = decode.finish(channels * frame_size).unwrap();
    assert_eq!(samples.len(), (channels * frame_size) as usize);
}

#[test]
fn silent_frame_round_trip_mono() {
    silent_round_trip(1, 960);
    silent_round_trip(1, 480);
}

#[test]
fn silent_frame_round_trip_stereo() {
    silent_round_trip(2, 960);
    silent_round_trip(2, 120);
}
