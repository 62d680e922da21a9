//! What the encoder and the decoder session have in common.

use vstd::prelude::*;
use crate::error::{BridgeError, Operation, SessionKind};
use crate::status::OPUS_RESET_STATE;

verus! {

/// Whether the outcome `r` of an operation is the outcome `model` that the
/// operation's model gives: the same failure, or a value with that view.
pub open spec fn refines<T: View, E>(r: Result<T, E>, model: Result<T::V, E>) -> bool {
    match r {
        Ok(value) => model == Ok::<T::V, E>(value@),
        Err(e) => model == Err::<T::V, E>(e),
    }
}

/// The reference that the host holds when it has no session: before one was
/// created, and again once it was destroyed.
pub const NO_SESSION: i64 = 0;

/// What the host's reference `handle` allows: `NO_SESSION` refers to a
/// session of kind `session` that is closed, which is an illegal state; every
/// other reference is one that the host was given for a live session.
pub open spec fn spec_check_handle(handle: i64, session: SessionKind) -> Result<(), BridgeError> {
    if handle == NO_SESSION {
        Err(BridgeError::IllegalState { session })
    } else {
        Ok(())
    }
}

/// Checks the reference that the host passes with a request, before anything
/// is looked up behind it.
#[verifier::when_used_as_spec(spec_check_handle)]
pub fn check_handle(handle: i64, session: SessionKind) -> (r: Result<(), BridgeError>)
    ensures
        r == spec_check_handle(handle, session),
{
    if handle == NO_SESSION {
        Err(BridgeError::IllegalState { session })
    } else {
        Ok(())
    }
}

/// The control call that puts the codec of an open session back into its
/// initial state.
#[derive(Debug, Clone, Copy, PartialEq, Eq, Hash, Structural)]
pub struct ResetCall {
    /// The codec to reset.
    pub native: u64,
    /// The request number to pass.
    pub request: i32,
}

impl ResetCall {
    /// The reset call for the codec `native`.
    pub open spec fn spec_new(native: u64) -> ResetCall {
        ResetCall { native, request: OPUS_RESET_STATE }
    }

    /// What the status `code` of the control call means: a negative one is a
    /// runtime failure that carries it, any other is success.
    pub open spec fn spec_finish(self, code: i32) -> Result<(), BridgeError> {
        if code < 0 {
            Err(BridgeError::RuntimeFailure { operation: Operation::ResetState, code })
        } else {
            Ok(())
        }
    }

    /// The reset call for the codec `native`.
    pub fn new(native: u64) -> (call: ResetCall)
        ensures
            call == ResetCall::spec_new(native),
    {
        ResetCall { native, request: OPUS_RESET_STATE }
    }

    /// Takes the status that the control call returned.
    pub fn finish(self, code: i32) -> (r: Result<(), BridgeError>)
        ensures
            r == self.spec_finish(code),
    {
        if code < 0 {
            Err(BridgeError::RuntimeFailure { operation: Operation::ResetState, code })
        } else {
            Ok(())
        }
    }
}

} // verus!
