//! The failures the bridge reports to the host.

use vstd::prelude::*;
use vstd::string::*;
use crate::status::{error_label, translate_error};
use crate::text::{append_decimal, decimal};

verus! {

/// The two kinds of session.
#[derive(Debug, Clone, Copy, PartialEq, Eq, Hash, Structural)]
pub enum SessionKind {
    Encoder,
    Decoder,
}

/// A value of the host that the bridge validates.
#[derive(Debug, Clone, Copy, PartialEq, Eq, Hash, Structural)]
pub enum Parameter {
    Channels,
    FrameSize,
    MaxPayloadSize,
}

/// A request that reaches the codec of an open session.
#[derive(Debug, Clone, Copy, PartialEq, Eq, Hash, Structural)]
pub enum Operation {
    Encode,
    Decode,
    ResetState,
}

/// The classes of failure the host can be told of.
#[derive(Debug, Clone, Copy, PartialEq, Eq, Hash, Structural)]
pub enum FailureKind {
    /// A value was rejected before any native state was touched.
    InvalidArgument,
    /// The session is closed.
    IllegalState,
    /// The native codec could not be created.
    IoFailure,
    /// A native call on an open session reported an error.
    RuntimeFailure,
    /// A buffer could not be moved between the host and the bridge.
    MarshalFailure,
}

impl FailureKind {
    /// The name of the host exception that signals this kind of failure.
    pub open spec fn class_name(self) -> Seq<char> {
        match self {
            FailureKind::InvalidArgument => "java/lang/IllegalArgumentException"@,
            FailureKind::IllegalState => "java/lang/IllegalStateException"@,
            FailureKind::IoFailure => "java/io/IOException"@,
            FailureKind::RuntimeFailure => "java/lang/RuntimeException"@,
            FailureKind::MarshalFailure => "java/lang/RuntimeException"@,
        }
    }

    /// The host exception to raise for this kind of failure.
    pub fn exception_class(self) -> (name: &'static str)
        ensures
            name@ == self.class_name(),
    {
        match self {
            FailureKind::InvalidArgument => "java/lang/IllegalArgumentException",
            FailureKind::IllegalState => "java/lang/IllegalStateException",
            FailureKind::IoFailure => "java/io/IOException",
            FailureKind::RuntimeFailure => "java/lang/RuntimeException",
            FailureKind::MarshalFailure => "java/lang/RuntimeException",
        }
    }
}

/// A failure found by the bridge itself, with what the message needs.
#[derive(Debug, Clone, Copy, PartialEq, Eq, Hash, Structural)]
pub enum BridgeError {
    /// `value` is not acceptable for `parameter`.
    InvalidArgument { parameter: Parameter, value: i32 },
    /// The session was closed before the request arrived.
    IllegalState { session: SessionKind },
    /// Creating the native codec ended with status `code`, or with no codec.
    IoFailure { session: SessionKind, code: i32 },
    /// The native call behind `operation` returned the negative status `code`.
    RuntimeFailure { operation: Operation, code: i32 },
}

impl BridgeError {
    /// The class of this failure.
    pub open spec fn spec_kind(self) -> FailureKind {
        match self {
            BridgeError::InvalidArgument { .. } => FailureKind::InvalidArgument,
            BridgeError::IllegalState { .. } => FailureKind::IllegalState,
            BridgeError::IoFailure { .. } => FailureKind::IoFailure,
            BridgeError::RuntimeFailure { .. } => FailureKind::RuntimeFailure,
        }
    }

    /// The text the host is shown for this failure: a fixed phrase, followed,
    /// where the failure carries one, by the rejected value in decimal or by
    /// the label of the native status.
    pub open spec fn message_text(self) -> Seq<char> {
        match self {
            BridgeError::InvalidArgument { parameter: Parameter::Channels, value } =>
                "Invalid number of channels: "@ + decimal(value as int),
            BridgeError::InvalidArgument { parameter: Parameter::FrameSize, value } =>
                "Invalid frame size: "@ + decimal(value as int),
            BridgeError::InvalidArgument { parameter: Parameter::MaxPayloadSize, value } =>
                "Invalid maximum payload size: "@ + decimal(value as int),
            BridgeError::IllegalState { session: SessionKind::Encoder } => "Encoder is closed"@,
            BridgeError::IllegalState { session: SessionKind::Decoder } => "Decoder is closed"@,
            BridgeError::IoFailure { session: SessionKind::Encoder, code } =>
                "Failed to create encoder: "@ + error_label(code),
            BridgeError::IoFailure { session: SessionKind::Decoder, code } =>
                "Failed to create decoder: "@ + error_label(code),
            BridgeError::RuntimeFailure { operation: Operation::Encode, code } =>
                "Failed to encode: "@ + error_label(code),
            BridgeError::RuntimeFailure { operation: Operation::Decode, code } =>
                "Failed to decode: "@ + error_label(code),
            BridgeError::RuntimeFailure { operation: Operation::ResetState, code } =>
                "Failed to reset state: "@ + error_label(code),
        }
    }

    /// The class of this failure.
    pub fn kind(&self) -> (kind: FailureKind)
        ensures
            kind == self.spec_kind(),
    {
        match self {
            BridgeError::InvalidArgument { .. } => FailureKind::InvalidArgument,
            BridgeError::IllegalState { .. } => FailureKind::IllegalState,
            BridgeError::IoFailure { .. } => FailureKind::IoFailure,
            BridgeError::RuntimeFailure { .. } => FailureKind::RuntimeFailure,
        }
    }

    /// The host exception to raise for this failure.
    pub fn exception_class(&self) -> (name: &'static str)
        ensures
            name@ == self.spec_kind().class_name(),
    {
        self.kind().exception_class()
    }

    /// The message of this failure.
    pub fn message(&self) -> (text: String)
        ensures
            text@ == self.message_text(),
    {
        match *self {
            BridgeError::InvalidArgument { parameter, value } => {
                let mut text = String::from_str(
                    match parameter {
                        Parameter::Channels => "Invalid number of channels: ",
                        Parameter::FrameSize => "Invalid frame size: ",
                        Parameter::MaxPayloadSize => "Invalid maximum payload size: ",
                    },
                );
                append_decimal(&mut text, value);
                text
            },
            BridgeError::IllegalState { session } => String::from_str(
                match session {
                    SessionKind::Encoder => "Encoder is closed",
                    SessionKind::Decoder => "Decoder is closed",
                },
            ),
            BridgeError::IoFailure { session, code } => {
                let mut text = String::from_str(
                    match session {
                        SessionKind::Encoder => "Failed to create encoder: ",
                        SessionKind::Decoder => "Failed to create decoder: ",
                    },
                );
                text.append(translate_error(code));
                text
            },
            BridgeError::RuntimeFailure { operation, code } => {
                let mut text = String::from_str(
                    match operation {
                        Operation::Encode => "Failed to encode: ",
                        Operation::Decode => "Failed to decode: ",
                        Operation::ResetState => "Failed to reset state: ",
                    },
                );
                text.append(translate_error(code));
                text
            },
        }
    }
}

} // verus!
