//! What a session is configured with when it is created.

use vstd::prelude::*;
use crate::error::{BridgeError, Parameter};

verus! {

/// Coding mode tuned for voice.
pub const OPUS_APPLICATION_VOIP: i32 = 2048;

/// Coding mode tuned for music and mixed content.
pub const OPUS_APPLICATION_AUDIO: i32 = 2049;

/// Coding mode with the lowest delay, without the speech-optimised paths.
pub const OPUS_APPLICATION_RESTRICTED_LOWDELAY: i32 = 2051;

/// Number of interleaved channels of a session, fixed when it is created.
#[derive(Debug, Clone, Copy, PartialEq, Eq, Hash, Structural)]
pub enum Channels {
    Mono,
    Stereo,
}

impl Channels {
    /// The channel count handed to the codec: 1 for mono, 2 for stereo.
    pub open spec fn spec_count(self) -> i32 {
        match self {
            Channels::Mono => 1,
            Channels::Stereo => 2,
        }
    }

    /// What the host's channel number `value` selects: 1 is mono, 2 is
    /// stereo, and every other number is an invalid argument.
    pub open spec fn spec_from_count(value: i32) -> Result<Channels, BridgeError> {
        if value == 1 {
            Ok(Channels::Mono)
        } else if value == 2 {
            Ok(Channels::Stereo)
        } else {
            Err(BridgeError::InvalidArgument { parameter: Parameter::Channels, value })
        }
    }

    /// The channel count handed to the codec.
    #[verifier::when_used_as_spec(spec_count)]
    pub fn count(self) -> (n: i32)
        ensures
            n == self.spec_count(),
    {
        match self {
            Channels::Mono => 1,
            Channels::Stereo => 2,
        }
    }

    /// Validates the channel number that the host supplies.
    pub fn from_count(value: i32) -> (r: Result<Channels, BridgeError>)
        ensures
            r == Channels::spec_from_count(value),
    {
        match value {
            1 => Ok(Channels::Mono),
            2 => Ok(Channels::Stereo),
            _ => Err(BridgeError::InvalidArgument { parameter: Parameter::Channels, value }),
        }
    }
}

/// Tuning profile of an encoder, chosen when it is created.
#[derive(Debug, Clone, Copy, PartialEq, Eq, Hash, Structural)]
pub enum ApplicationMode {
    VoiceOptimized,
    LowDelay,
    GeneralAudio,
}

impl ApplicationMode {
    /// The profile behind the host's number: 2 is low delay; 1 and, as a
    /// fallback, every other number is voice.
    pub open spec fn spec_from_host(value: i32) -> ApplicationMode {
        if value == 2 {
            ApplicationMode::LowDelay
        } else {
            ApplicationMode::VoiceOptimized
        }
    }

    /// The codec's constant for this profile.
    pub open spec fn spec_native(self) -> i32 {
        match self {
            ApplicationMode::VoiceOptimized => OPUS_APPLICATION_VOIP,
            ApplicationMode::LowDelay => OPUS_APPLICATION_RESTRICTED_LOWDELAY,
            ApplicationMode::GeneralAudio => OPUS_APPLICATION_AUDIO,
        }
    }

    /// Maps the host's number to a profile; no number is rejected.
    pub fn from_host(value: i32) -> (mode: ApplicationMode)
        ensures
            mode == ApplicationMode::spec_from_host(value),
    {
        match value {
            2 => ApplicationMode::LowDelay,
            _ => ApplicationMode::VoiceOptimized,
        }
    }

    /// The codec's constant for this profile.
    #[verifier::when_used_as_spec(spec_native)]
    pub fn native(self) -> (mode: i32)
        ensures
            mode == self.spec_native(),
    {
        match self {
            ApplicationMode::VoiceOptimized => OPUS_APPLICATION_VOIP,
            ApplicationMode::LowDelay => OPUS_APPLICATION_RESTRICTED_LOWDELAY,
            ApplicationMode::GeneralAudio => OPUS_APPLICATION_AUDIO,
        }
    }
}

} // verus!
