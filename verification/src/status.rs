//! Status codes of the native codec and the labels they are reported under.

use vstd::prelude::*;

verus! {

/// No error.
pub const OPUS_OK: i32 = 0;

/// One or more invalid or out-of-range arguments.
pub const OPUS_BAD_ARG: i32 = -1;

/// Not enough bytes allocated in the buffer.
pub const OPUS_BUFFER_TOO_SMALL: i32 = -2;

/// An internal error was detected.
pub const OPUS_INTERNAL_ERROR: i32 = -3;

/// The compressed data passed is corrupted.
pub const OPUS_INVALID_PACKET: i32 = -4;

/// Invalid or unsupported request number.
pub const OPUS_UNIMPLEMENTED: i32 = -5;

/// A codec state is invalid or already freed.
pub const OPUS_INVALID_STATE: i32 = -6;

/// Memory allocation has failed.
pub const OPUS_ALLOC_FAIL: i32 = -7;

/// Request number of the control call that resets a codec to its initial state.
pub const OPUS_RESET_STATE: i32 = 4028;

/// The failures a native status code can stand for.
#[derive(Debug, Clone, Copy, PartialEq, Eq, Hash, Structural)]
pub enum NativeError {
    BadArgument,
    BufferTooSmall,
    InternalError,
    InvalidPacket,
    Unimplemented,
    InvalidState,
    AllocationFailure,
    Unknown,
}

impl NativeError {
    /// The failure that `code` stands for; every code without a meaning of its
    /// own, zero and the positive ones included, is `Unknown`.
    pub open spec fn of(code: i32) -> NativeError {
        if code == OPUS_BAD_ARG {
            NativeError::BadArgument
        } else if code == OPUS_BUFFER_TOO_SMALL {
            NativeError::BufferTooSmall
        } else if code == OPUS_INTERNAL_ERROR {
            NativeError::InternalError
        } else if code == OPUS_INVALID_PACKET {
            NativeError::InvalidPacket
        } else if code == OPUS_UNIMPLEMENTED {
            NativeError::Unimplemented
        } else if code == OPUS_INVALID_STATE {
            NativeError::InvalidState
        } else if code == OPUS_ALLOC_FAIL {
            NativeError::AllocationFailure
        } else {
            NativeError::Unknown
        }
    }

    /// The label a failure is reported under.
    pub open spec fn text(self) -> Seq<char> {
        match self {
            NativeError::BadArgument => "OPUS_BAD_ARG"@,
            NativeError::BufferTooSmall => "OPUS_BUFFER_TOO_SMALL"@,
            NativeError::InternalError => "OPUS_INTERNAL_ERROR"@,
            NativeError::InvalidPacket => "OPUS_INVALID_PACKET"@,
            NativeError::Unimplemented => "OPUS_UNIMPLEMENTED"@,
            NativeError::InvalidState => "OPUS_INVALID_STATE"@,
            NativeError::AllocationFailure => "OPUS_ALLOC_FAIL"@,
            NativeError::Unknown => "UNKNOWN"@,
        }
    }

    /// Classifies a native status code.
    pub fn classify(code: i32) -> (kind: NativeError)
        ensures
            kind == NativeError::of(code),
    {
        match code {
            -1 => NativeError::BadArgument,
            -2 => NativeError::BufferTooSmall,
            -3 => NativeError::InternalError,
            -4 => NativeError::InvalidPacket,
            -5 => NativeError::Unimplemented,
            -6 => NativeError::InvalidState,
            -7 => NativeError::AllocationFailure,
            _ => NativeError::Unknown,
        }
    }

    /// The label of this failure.
    pub fn label(self) -> (label: &'static str)
        ensures
            label@ == self.text(),
    {
        match self {
            NativeError::BadArgument => "OPUS_BAD_ARG",
            NativeError::BufferTooSmall => "OPUS_BUFFER_TOO_SMALL",
            NativeError::InternalError => "OPUS_INTERNAL_ERROR",
            NativeError::InvalidPacket => "OPUS_INVALID_PACKET",
            NativeError::Unimplemented => "OPUS_UNIMPLEMENTED",
            NativeError::InvalidState => "OPUS_INVALID_STATE",
            NativeError::AllocationFailure => "OPUS_ALLOC_FAIL",
            NativeError::Unknown => "UNKNOWN",
        }
    }
}

/// The label that the status code `code` is reported under.
pub open spec fn error_label(code: i32) -> Seq<char> {
    NativeError::of(code).text()
}

/// Translates a native status code into its label.
pub fn translate_error(value: i32) -> (label: &'static str)
    ensures
        label@ == error_label(value),
        label@.len() > 0,
{
    proof {
        lemma_label_never_empty(value);
    }
    NativeError::classify(value).label()
}

/// Every status code has a label of at least one character, and a code
/// outside -7..=-1 has the label `UNKNOWN`.
pub proof fn lemma_label_never_empty(code: i32)
    ensures
        error_label(code).len() > 0,
        !(-7 <= code <= -1) ==> error_label(code) == "UNKNOWN"@,
{
    reveal_strlit("OPUS_BAD_ARG");
    reveal_strlit("OPUS_BUFFER_TOO_SMALL");
    reveal_strlit("OPUS_INTERNAL_ERROR");
    reveal_strlit("OPUS_INVALID_PACKET");
    reveal_strlit("OPUS_UNIMPLEMENTED");
    reveal_strlit("OPUS_INVALID_STATE");
    reveal_strlit("OPUS_ALLOC_FAIL");
    reveal_strlit("UNKNOWN");
}

} // verus!
