//! The encoder session.

use vstd::prelude::*;
use crate::buffer::{keep_produced, native_len, produced, samples_per_channel,
    spec_samples_per_channel, to_native_len, zeroed_bytes};
use crate::config::{ApplicationMode, Channels};
use crate::error::{BridgeError, Operation, Parameter, SessionKind};
use crate::session::{refines, ResetCall};
use crate::status::OPUS_OK;

verus! {

/// Largest packet, in bytes, that a new encoder may emit.
pub const DEFAULT_PAYLOAD_SIZE: u32 = 1024;

/// An encoder session: one native encoder and the limit on its packets.
#[derive(Debug)]
pub struct Encoder {
    native: u64,
    channels: Channels,
    max_payload_size: u32,
}

/// What an encoder session holds.
pub struct EncoderState {
    /// The native encoder; zero once the session is closed.
    pub native: u64,
    /// Channel count, fixed at creation.
    pub channels: Channels,
    /// Upper bound, in bytes, on one packet.
    pub max_payload_size: u32,
}

/// The native call that creates an encoder.
#[derive(Debug, Clone, Copy, PartialEq, Eq, Hash, Structural)]
pub struct CreateEncoder {
    /// Sample rate of the input, in Hz.
    pub sample_rate: i32,
    /// Channel count of the input.
    pub channels: Channels,
    /// Tuning profile.
    pub application: ApplicationMode,
}

/// One native encode call: its arguments, and the buffer it writes to.
#[derive(Debug)]
pub struct EncodeCall {
    /// The encoder to call.
    pub native: u64,
    /// Samples per channel in the input.
    pub frame_size: i32,
    /// Room for the packet, in bytes.
    pub max_data_bytes: i32,
    /// Where the packet goes.
    pub output: Vec<u8>,
}

/// The view of an [`EncodeCall`].
pub struct EncodeCallView {
    pub native: u64,
    pub frame_size: i32,
    pub max_data_bytes: i32,
    pub output: Seq<u8>,
}

impl View for EncodeCall {
    type V = EncodeCallView;

    open spec fn view(&self) -> EncodeCallView {
        EncodeCallView {
            native: self.native,
            frame_size: self.frame_size,
            max_data_bytes: self.max_data_bytes,
            output: self.output@,
        }
    }
}

impl EncoderState {
    /// A session is open as long as it has its native encoder.
    pub open spec fn is_open(self) -> bool {
        self.native != 0
    }

    /// The payload limit is positive and fits the host's `int`.
    pub open spec fn wf(self) -> bool {
        0 < self.max_payload_size <= i32::MAX
    }

    /// Whether creation may go ahead: only with one or two channels. The
    /// application number is never a reason to refuse.
    pub open spec fn create(sample_rate: i32, channels: i32, application: i32) -> Result<
        CreateEncoder,
        BridgeError,
    > {
        match Channels::spec_from_count(channels) {
            Ok(channels) => Ok(
                CreateEncoder {
                    sample_rate,
                    channels,
                    application: ApplicationMode::spec_from_host(application),
                },
            ),
            Err(e) => Err(e),
        }
    }

    /// The session around an encoder that the codec was asked to create: it
    /// exists, with the default payload limit, if the status is `OPUS_OK` and
    /// the encoder is there, and else the status is the error.
    pub open spec fn new(channels: Channels, native: u64, status: i32) -> Result<EncoderState, i32> {
        if status != OPUS_OK || native == 0 {
            Err(status)
        } else {
            Ok(EncoderState { native, channels, max_payload_size: DEFAULT_PAYLOAD_SIZE })
        }
    }

    /// Whether `size` can be a payload limit: only if it is positive.
    pub open spec fn check_max_payload_size(size: i32) -> Result<(), BridgeError> {
        if size <= 0 {
            Err(BridgeError::InvalidArgument { parameter: Parameter::MaxPayloadSize, value: size })
        } else {
            Ok(())
        }
    }

    /// Setting the payload limit: a size that is not positive is an invalid
    /// argument, a closed session an illegal state; neither changes the
    /// session. Otherwise the size is stored.
    pub open spec fn set_max_payload_size(self, size: i32) -> (EncoderState, Result<(), BridgeError>) {
        if EncoderState::check_max_payload_size(size) is Err {
            (self, EncoderState::check_max_payload_size(size))
        } else if !self.is_open() {
            (self, Err(BridgeError::IllegalState { session: SessionKind::Encoder }))
        } else {
            (EncoderState { max_payload_size: size as u32, ..self }, Ok(()))
        }
    }

    /// Reading the payload limit, which only an open session allows.
    pub open spec fn get_max_payload_size(self) -> Result<i32, BridgeError> {
        if !self.is_open() {
            Err(BridgeError::IllegalState { session: SessionKind::Encoder })
        } else {
            Ok(self.max_payload_size as i32)
        }
    }

    /// The encode call for the interleaved samples `input`. A closed session
    /// gives none. The frame size is the input length divided by the channel
    /// count, and the output buffer has `max_payload_size` zero bytes, all of
    /// which the codec may use.
    pub open spec fn encode(self, input: Seq<i16>) -> Result<EncodeCallView, BridgeError> {
        if !self.is_open() {
            Err(BridgeError::IllegalState { session: SessionKind::Encoder })
        } else {
            Ok(
                EncodeCallView {
                    native: self.native,
                    frame_size: spec_samples_per_channel(input.len() as int, self.channels),
                    max_data_bytes: native_len(self.max_payload_size as int),
                    output: Seq::new(self.max_payload_size as nat, |i: int| 0u8),
                },
            )
        }
    }

    /// The reset call of an open session; a closed one gives none.
    pub open spec fn reset_state(self) -> Result<ResetCall, BridgeError> {
        if !self.is_open() {
            Err(BridgeError::IllegalState { session: SessionKind::Encoder })
        } else {
            Ok(ResetCall::spec_new(self.native))
        }
    }

    /// Closing: an open session gives up its native encoder, to be freed,
    /// and is closed from then on; a closed one stays as it is.
    pub open spec fn destroy(self) -> (EncoderState, Option<u64>) {
        if !self.is_open() {
            (self, None)
        } else {
            (EncoderState { native: 0, ..self }, Some(self.native))
        }
    }
}

impl CreateEncoder {
    /// The session that the outcome of the native creation gives: an encoder
    /// with the default payload limit, or an I/O failure with the status.
    pub open spec fn spec_finish(self, native: u64, status: i32) -> Result<EncoderState, BridgeError> {
        match EncoderState::new(self.channels, native, status) {
            Ok(state) => Ok(state),
            Err(code) => Err(BridgeError::IoFailure { session: SessionKind::Encoder, code }),
        }
    }

    /// Takes what the native creation returned: the encoder, zero if there is
    /// none, and the status.
    pub fn finish(self, native: u64, status: i32) -> (r: Result<Encoder, BridgeError>)
        ensures
            refines(r, self.spec_finish(native, status)),
            r matches Ok(encoder) ==> encoder@.wf(),
    {
        match Encoder::new(self.channels, native, status) {
            Ok(encoder) => Ok(encoder),
            Err(code) => Err(BridgeError::IoFailure { session: SessionKind::Encoder, code }),
        }
    }
}

impl EncodeCallView {
    /// What the result of the native call means: a negative one is a runtime
    /// failure that carries it; any other is the length of the packet, and
    /// that many bytes from the front of the buffer go to the host.
    pub open spec fn finish(self, result: i32) -> Result<Seq<u8>, BridgeError> {
        if result < 0 {
            Err(BridgeError::RuntimeFailure { operation: Operation::Encode, code: result })
        } else {
            Ok(produced(self.output, result as int))
        }
    }
}

impl EncodeCall {
    /// Takes the result of the native call, made with these arguments.
    pub fn finish(self, result: i32) -> (r: Result<Vec<u8>, BridgeError>)
        ensures
            refines(r, self@.finish(result)),
    {
        if result < 0 {
            return Err(BridgeError::RuntimeFailure { operation: Operation::Encode, code: result });
        }
        Ok(keep_produced(self.output, result as usize))
    }
}

impl View for Encoder {
    type V = EncoderState;

    closed spec fn view(&self) -> EncoderState {
        EncoderState {
            native: self.native,
            channels: self.channels,
            max_payload_size: self.max_payload_size,
        }
    }
}

impl Encoder {
    #[verifier::type_invariant]
    spec fn well_formed(self) -> bool {
        self@.wf()
    }

    /// Checks the host's request for an encoder. With a channel count other
    /// than 1 or 2 there is nothing to call.
    pub fn create(sample_rate: i32, channels: i32, application: i32) -> (r: Result<
        CreateEncoder,
        BridgeError,
    >)
        ensures
            r == EncoderState::create(sample_rate, channels, application),
    {
        match Channels::from_count(channels) {
            Ok(channels) => Ok(
                CreateEncoder {
                    sample_rate,
                    channels,
                    application: ApplicationMode::from_host(application),
                },
            ),
            Err(e) => Err(e),
        }
    }

    /// Wraps the encoder `native` that the codec returned with `status`.
    pub fn new(channels: Channels, native: u64, status: i32) -> (r: Result<Encoder, i32>)
        ensures
            refines(r, EncoderState::new(channels, native, status)),
            r matches Ok(encoder) ==> encoder@.wf(),
    {
        if status != OPUS_OK || native == 0 {
            Err(status)
        } else {
            Ok(Encoder { native, channels, max_payload_size: DEFAULT_PAYLOAD_SIZE })
        }
    }

    /// Validates a payload limit before a session is looked up for it.
    pub fn check_max_payload_size(size: i32) -> (r: Result<(), BridgeError>)
        ensures
            r == EncoderState::check_max_payload_size(size),
    {
        if size <= 0 {
            Err(BridgeError::InvalidArgument { parameter: Parameter::MaxPayloadSize, value: size })
        } else {
            Ok(())
        }
    }

    /// Whether the session still has its native encoder.
    pub fn is_open(&self) -> (open: bool)
        ensures
            open == self@.is_open(),
    {
        self.native != 0
    }

    /// The channel count of the session.
    pub fn channels(&self) -> (channels: Channels)
        ensures
            channels == self@.channels,
    {
        self.channels
    }

    /// Stores a new payload limit.
    pub fn set_max_payload_size(&mut self, size: i32) -> (r: Result<(), BridgeError>)
        ensures
            (final(self)@, r) == old(self)@.set_max_payload_size(size),
    {
        if let Err(e) = Encoder::check_max_payload_size(size) {
            return Err(e);
        }
        if self.native == 0 {
            return Err(BridgeError::IllegalState { session: SessionKind::Encoder });
        }
        self.max_payload_size = size as u32;
        Ok(())
    }

    /// Reads the payload limit.
    pub fn get_max_payload_size(&self) -> (r: Result<i32, BridgeError>)
        ensures
            r == self@.get_max_payload_size(),
            self@.wf(),
    {
        proof {
            use_type_invariant(self);
        }
        if self.native == 0 {
            return Err(BridgeError::IllegalState { session: SessionKind::Encoder });
        }
        Ok(self.max_payload_size as i32)
    }

    /// Prepares the native call that encodes the interleaved samples `input`.
    pub fn encode(&self, input: &[i16]) -> (r: Result<EncodeCall, BridgeError>)
        ensures
            refines(r, self@.encode(input@)),
            self@.wf(),
    {
        proof {
            use_type_invariant(self);
        }
        if self.native == 0 {
            return Err(BridgeError::IllegalState { session: SessionKind::Encoder });
        }
        let output = zeroed_bytes(self.max_payload_size as usize);
        Ok(
            EncodeCall {
                native: self.native,
                frame_size: samples_per_channel(input.len(), self.channels),
                max_data_bytes: to_native_len(output.len()),
                output,
            },
        )
    }

    /// Prepares the control call that resets the encoder.
    pub fn reset_state(&self) -> (r: Result<ResetCall, BridgeError>)
        ensures
            r == self@.reset_state(),
    {
        if self.native == 0 {
            return Err(BridgeError::IllegalState { session: SessionKind::Encoder });
        }
        Ok(ResetCall::new(self.native))
    }

    /// Closes the session and returns the native encoder to free, if it was
    /// still there.
    pub fn destroy(&mut self) -> (released: Option<u64>)
        ensures
            (final(self)@, released) == old(self)@.destroy(),
    {
        if self.native == 0 {
            return None;
        }
        proof {
            use_type_invariant(&*self);
        }
        let native = self.native;
        self.native = 0;
        Some(native)
    }
}

/// Creation goes ahead for one and for two channels, whatever the sample
/// rate and the application number, and a codec that reports success and
/// hands over an encoder then gives an open session with the default payload
/// limit. Any other channel count is an invalid argument, and no native call
/// is made for it. A codec that reports a failure, or hands over nothing,
/// gives an I/O failure.
pub proof fn lemma_encoder_creation(
    sample_rate: i32,
    channels: i32,
    application: i32,
    native: u64,
    status: i32,
)
    ensures
        (channels == 1 || channels == 2) <==> EncoderState::create(
            sample_rate,
            channels,
            application,
        ) is Ok,
        !(channels == 1 || channels == 2) ==> EncoderState::create(sample_rate, channels, application)
            == Err::<CreateEncoder, BridgeError>(
            BridgeError::InvalidArgument { parameter: Parameter::Channels, value: channels },
        ),
        EncoderState::create(sample_rate, channels, application) matches Ok(call) ==> {
            &&& call.sample_rate == sample_rate
            &&& call.channels.count() == channels
            &&& call.application == ApplicationMode::spec_from_host(application)
            &&& (status == OPUS_OK && native != 0) ==> {
                &&& call.spec_finish(native, status) matches Ok(state)
                &&& state.is_open()
                &&& state.wf()
                &&& state.native == native
                &&& state.channels == call.channels
                &&& state.max_payload_size == DEFAULT_PAYLOAD_SIZE
            }
            &&& !(status == OPUS_OK && native != 0) ==> call.spec_finish(native, status) == Err::<
                EncoderState,
                BridgeError,
            >(BridgeError::IoFailure { session: SessionKind::Encoder, code: status })
        },
{
}

/// Once a session is destroyed it is closed for good: reading the payload
/// limit, setting it to a positive size, encoding and resetting all fail with
/// an illegal state, prepare no native call and leave the session as it is,
/// and destroying it again changes nothing and releases nothing.
pub proof fn lemma_destroyed_encoder_refuses(state: EncoderState, size: i32, input: Seq<i16>)
    requires
        size > 0,
    ensures
        ({
            let closed = state.destroy().0;
            let refusal = BridgeError::IllegalState { session: SessionKind::Encoder };
            &&& !closed.is_open()
            &&& closed.set_max_payload_size(size) == (closed, Err::<(), BridgeError>(refusal))
            &&& closed.get_max_payload_size() == Err::<i32, BridgeError>(refusal)
            &&& closed.encode(input) == Err::<EncodeCallView, BridgeError>(refusal)
            &&& closed.reset_state() == Err::<ResetCall, BridgeError>(refusal)
            &&& closed.destroy() == (closed, None::<u64>)
        }),
{
}

/// A size that is not positive is refused as an invalid argument and the
/// stored payload limit stays; after a size was stored, reading gives back
/// exactly that size.
pub proof fn lemma_max_payload_size_set_then_get(state: EncoderState, size: i32)
    ensures
        size <= 0 ==> state.set_max_payload_size(size) == (
            state,
            Err::<(), BridgeError>(
                BridgeError::InvalidArgument { parameter: Parameter::MaxPayloadSize, value: size },
            ),
        ),
        state.set_max_payload_size(size).1 is Ok ==> {
            &&& state.set_max_payload_size(size).0.get_max_payload_size() == Ok::<i32, BridgeError>(
                size,
            )
            &&& state.set_max_payload_size(size).0.wf()
            &&& state.set_max_payload_size(size).0.native == state.native
            &&& state.set_max_payload_size(size).0.channels == state.channels
        },
{
}

/// The encode call of an open session offers the codec `max_payload_size`
/// bytes, and for an input that a host array can hold its frame size is the
/// input length divided by the channel count, the remainder dropped. A
/// result that is not negative then gives the host that many bytes, as far
/// as the buffer has them.
pub proof fn lemma_encode_call_room(state: EncoderState, input: Seq<i16>, result: i32)
    requires
        state.wf(),
        state.is_open(),
    ensures
        state.encode(input) matches Ok(call) && {
            &&& call.native == state.native
            &&& call.output.len() == state.max_payload_size
            &&& call.max_data_bytes == state.max_payload_size
            &&& input.len() <= i32::MAX ==> call.frame_size == input.len() / (
            state.channels.count() as nat)
            &&& 0 <= result <= state.max_payload_size ==> {
                &&& call.finish(result) matches Ok(packet)
                &&& packet.len() == result
            }
        },
{
}

/// No request takes the payload limit of a session out of its range: after
/// setting the limit and after closing, a session whose limit was positive
/// and within the host's `int` still has one that is.
pub proof fn lemma_encoder_stays_well_formed(state: EncoderState, size: i32)
    requires
        state.wf(),
    ensures
        state.set_max_payload_size(size).0.wf(),
        state.destroy().0.wf(),
{
}

} // verus!
