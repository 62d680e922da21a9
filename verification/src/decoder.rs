//! The decoder session.

use vstd::prelude::*;
use crate::buffer::{frame_capacity, keep_produced, native_len, produced, spec_frame_capacity,
    to_native_len, zeroed_samples};
use crate::config::Channels;
use crate::error::{BridgeError, Operation, Parameter, SessionKind};
use crate::session::{refines, ResetCall};
use crate::status::OPUS_OK;

verus! {

/// Samples per channel that a new decoder produces per call.
pub const DEFAULT_FRAME_SIZE: u32 = 960;

/// A decoder session: one native decoder and the frame size to decode with.
#[derive(Debug)]
pub struct Decoder {
    native: u64,
    frame_size: u32,
    channels: Channels,
}

/// What a decoder session holds.
pub struct DecoderState {
    /// The native decoder; zero once the session is closed.
    pub native: u64,
    /// Samples per channel to make room for in each decode call.
    pub frame_size: u32,
    /// Channel count, fixed at creation.
    pub channels: Channels,
}

/// The native call that creates a decoder.
#[derive(Debug, Clone, Copy, PartialEq, Eq, Hash, Structural)]
pub struct CreateDecoder {
    /// Sample rate to decode at, in Hz.
    pub sample_rate: i32,
    /// Channel count to decode to.
    pub channels: Channels,
}

/// One native decode call: its arguments, and the buffer it writes to.
#[derive(Debug)]
pub struct DecodeCall {
    /// The decoder to call.
    pub native: u64,
    /// Whether to pass the packet; if not, the data pointer is null.
    pub has_data: bool,
    /// Length of the packet in bytes.
    pub data_len: i32,
    /// Samples per channel that `output` has room for.
    pub frame_size: i32,
    /// 1 to ask for the in-band error correction data, else 0.
    pub decode_fec: i32,
    /// Where the decoded samples go.
    pub output: Vec<i16>,
}

/// The view of a [`DecodeCall`].
pub struct DecodeCallView {
    pub native: u64,
    pub has_data: bool,
    pub data_len: i32,
    pub frame_size: i32,
    pub decode_fec: i32,
    pub output: Seq<i16>,
}

impl View for DecodeCall {
    type V = DecodeCallView;

    open spec fn view(&self) -> DecodeCallView {
        DecodeCallView {
            native: self.native,
            has_data: self.has_data,
            data_len: self.data_len,
            frame_size: self.frame_size,
            decode_fec: self.decode_fec,
            output: self.output@,
        }
    }
}

/// The bytes of the packet that a decode request carries, if it carries one.
pub open spec fn packet_bytes(packet: Option<&[u8]>) -> Option<Seq<u8>> {
    match packet {
        Some(bytes) => Some(bytes@),
        None => None,
    }
}

impl DecoderState {
    /// A session is open as long as it has its native decoder.
    pub open spec fn is_open(self) -> bool {
        self.native != 0
    }

    /// The frame size is positive and fits the host's `int`.
    pub open spec fn wf(self) -> bool {
        0 < self.frame_size <= i32::MAX
    }

    /// Whether creation may go ahead: only with one or two channels.
    pub open spec fn create(sample_rate: i32, channels: i32) -> Result<CreateDecoder, BridgeError> {
        match Channels::spec_from_count(channels) {
            Ok(channels) => Ok(CreateDecoder { sample_rate, channels }),
            Err(e) => Err(e),
        }
    }

    /// The session around a decoder that the codec was asked to create: it
    /// exists if the status is `OPUS_OK` and the decoder is there, and else
    /// the status is the error.
    pub open spec fn new(frame_size: u32, channels: Channels, native: u64, status: i32) -> Result<
        DecoderState,
        i32,
    > {
        if status != OPUS_OK || native == 0 {
            Err(status)
        } else {
            Ok(DecoderState { native, frame_size, channels })
        }
    }

    /// Whether `size` can be a frame size: only if it is positive.
    pub open spec fn check_frame_size(size: i32) -> Result<(), BridgeError> {
        if size <= 0 {
            Err(BridgeError::InvalidArgument { parameter: Parameter::FrameSize, value: size })
        } else {
            Ok(())
        }
    }

    /// Setting the frame size: a size that is not positive is an invalid
    /// argument, a closed session an illegal state; neither changes the
    /// session. Otherwise the size is stored.
    pub open spec fn set_frame_size(self, size: i32) -> (DecoderState, Result<(), BridgeError>) {
        if DecoderState::check_frame_size(size) is Err {
            (self, DecoderState::check_frame_size(size))
        } else if !self.is_open() {
            (self, Err(BridgeError::IllegalState { session: SessionKind::Decoder }))
        } else {
            (DecoderState { frame_size: size as u32, ..self }, Ok(()))
        }
    }

    /// Reading the frame size, which only an open session allows.
    pub open spec fn get_frame_size(self) -> Result<i32, BridgeError> {
        if !self.is_open() {
            Err(BridgeError::IllegalState { session: SessionKind::Decoder })
        } else {
            Ok(self.frame_size as i32)
        }
    }

    /// The decode call for a request. A closed session gives none. The output
    /// buffer has `frame_size * channels` zero samples, and its length decides
    /// the frame size that the codec is told. A packet that is absent or
    /// empty is not passed, and asks for concealment whatever `fec` says.
    pub open spec fn decode(self, packet: Option<Seq<u8>>, fec: bool) -> Result<
        DecodeCallView,
        BridgeError,
    > {
        if !self.is_open() {
            Err(BridgeError::IllegalState { session: SessionKind::Decoder })
        } else {
            let len: nat = match packet {
                Some(bytes) => bytes.len(),
                None => 0,
            };
            let capacity: nat = (self.frame_size * self.channels.count()) as nat;
            Ok(
                DecodeCallView {
                    native: self.native,
                    has_data: len != 0,
                    data_len: native_len(len as int),
                    frame_size: spec_frame_capacity(capacity as int, self.channels),
                    decode_fec: if fec || len == 0 {
                        1
                    } else {
                        0
                    },
                    output: Seq::new(capacity, |i: int| 0i16),
                },
            )
        }
    }

    /// The reset call of an open session; a closed one gives none.
    pub open spec fn reset_state(self) -> Result<ResetCall, BridgeError> {
        if !self.is_open() {
            Err(BridgeError::IllegalState { session: SessionKind::Decoder })
        } else {
            Ok(ResetCall::spec_new(self.native))
        }
    }

    /// Closing: an open session gives up its native decoder, to be freed,
    /// and is closed from then on; a closed one stays as it is.
    pub open spec fn destroy(self) -> (DecoderState, Option<u64>) {
        if !self.is_open() {
            (self, None)
        } else {
            (DecoderState { native: 0, ..self }, Some(self.native))
        }
    }
}

impl CreateDecoder {
    /// The session that the outcome of the native creation gives: a decoder
    /// with the default frame size, or an I/O failure with the status.
    pub open spec fn spec_finish(self, native: u64, status: i32) -> Result<DecoderState, BridgeError> {
        match DecoderState::new(DEFAULT_FRAME_SIZE, self.channels, native, status) {
            Ok(state) => Ok(state),
            Err(code) => Err(BridgeError::IoFailure { session: SessionKind::Decoder, code }),
        }
    }

    /// Takes what the native creation returned: the decoder, zero if there is
    /// none, and the status.
    pub fn finish(self, native: u64, status: i32) -> (r: Result<Decoder, BridgeError>)
        ensures
            refines(r, self.spec_finish(native, status)),
            r matches Ok(decoder) ==> decoder@.wf(),
    {
        match Decoder::new(DEFAULT_FRAME_SIZE, self.channels, native, status) {
            Ok(decoder) => Ok(decoder),
            Err(code) => Err(BridgeError::IoFailure { session: SessionKind::Decoder, code }),
        }
    }
}

impl DecodeCallView {
    /// What the result of the native call means: a negative one is a runtime
    /// failure that carries it; any other is the number of samples decoded,
    /// and that many samples from the front of the buffer go to the host.
    pub open spec fn finish(self, result: i32) -> Result<Seq<i16>, BridgeError> {
        if result < 0 {
            Err(BridgeError::RuntimeFailure { operation: Operation::Decode, code: result })
        } else {
            Ok(produced(self.output, result as int))
        }
    }
}

impl DecodeCall {
    /// Takes the result of the native call, made with these arguments.
    pub fn finish(self, result: i32) -> (r: Result<Vec<i16>, BridgeError>)
        ensures
            refines(r, self@.finish(result)),
    {
        if result < 0 {
            return Err(BridgeError::RuntimeFailure { operation: Operation::Decode, code: result });
        }
        Ok(keep_produced(self.output, result as usize))
    }
}

impl View for Decoder {
    type V = DecoderState;

    closed spec fn view(&self) -> DecoderState {
        DecoderState { native: self.native, frame_size: self.frame_size, channels: self.channels }
    }
}

impl Decoder {
    #[verifier::type_invariant]
    spec fn well_formed(self) -> bool {
        self@.wf()
    }

    /// Checks the host's request for a decoder. With a channel count other
    /// than 1 or 2 there is nothing to call.
    pub fn create(sample_rate: i32, channels: i32) -> (r: Result<CreateDecoder, BridgeError>)
        ensures
            r == DecoderState::create(sample_rate, channels),
    {
        match Channels::from_count(channels) {
            Ok(channels) => Ok(CreateDecoder { sample_rate, channels }),
            Err(e) => Err(e),
        }
    }

    /// Wraps the decoder `native` that the codec returned with `status`, to
    /// decode with `frame_size`, which is positive and within the host's `int`.
    pub fn new(frame_size: u32, channels: Channels, native: u64, status: i32) -> (r: Result<
        Decoder,
        i32,
    >)
        requires
            0 < frame_size <= i32::MAX,
        ensures
            refines(r, DecoderState::new(frame_size, channels, native, status)),
            r matches Ok(decoder) ==> decoder@.wf(),
    {
        if status != OPUS_OK || native == 0 {
            Err(status)
        } else {
            Ok(Decoder { native, frame_size, channels })
        }
    }

    /// Validates a frame size before a session is looked up for it.
    pub fn check_frame_size(size: i32) -> (r: Result<(), BridgeError>)
        ensures
            r == DecoderState::check_frame_size(size),
    {
        if size <= 0 {
            Err(BridgeError::InvalidArgument { parameter: Parameter::FrameSize, value: size })
        } else {
            Ok(())
        }
    }

    /// Whether the session still has its native decoder.
    pub fn is_open(&self) -> (open: bool)
        ensures
            open == self@.is_open(),
    {
        self.native != 0
    }

    /// The channel count of the session.
    pub fn channels(&self) -> (channels: Channels)
        ensures
            channels == self@.channels,
    {
        self.channels
    }

    /// Stores a new frame size.
    pub fn set_frame_size(&mut self, size: i32) -> (r: Result<(), BridgeError>)
        ensures
            (final(self)@, r) == old(self)@.set_frame_size(size),
    {
        if let Err(e) = Decoder::check_frame_size(size) {
            return Err(e);
        }
        if self.native == 0 {
            return Err(BridgeError::IllegalState { session: SessionKind::Decoder });
        }
        self.frame_size = size as u32;
        Ok(())
    }

    /// Reads the frame size.
    pub fn get_frame_size(&self) -> (r: Result<i32, BridgeError>)
        ensures
            r == self@.get_frame_size(),
            self@.wf(),
    {
        proof {
            use_type_invariant(self);
        }
        if self.native == 0 {
            return Err(BridgeError::IllegalState { session: SessionKind::Decoder });
        }
        Ok(self.frame_size as i32)
    }

    /// Prepares the native call that decodes `packet`, or that conceals a
    /// lost packet if there is none.
    pub fn decode(&self, packet: Option<&[u8]>, fec: bool) -> (r: Result<DecodeCall, BridgeError>)
        ensures
            refines(r, self@.decode(packet_bytes(packet), fec)),
            self@.wf(),
    {
        proof {
            use_type_invariant(self);
        }
        if self.native == 0 {
            return Err(BridgeError::IllegalState { session: SessionKind::Decoder });
        }
        let len: usize = match packet {
            Some(bytes) => bytes.len(),
            None => 0,
        };
        let capacity: usize = self.frame_size as usize * self.channels.count() as usize;
        let output = zeroed_samples(capacity);
        let frame_size = frame_capacity(output.len(), self.channels);
        Ok(
            DecodeCall {
                native: self.native,
                has_data: len != 0,
                data_len: to_native_len(len),
                frame_size,
                decode_fec: if fec || len == 0 {
                    1
                } else {
                    0
                },
                output,
            },
        )
    }

    /// Prepares the control call that resets the decoder.
    pub fn reset_state(&self) -> (r: Result<ResetCall, BridgeError>)
        ensures
            r == self@.reset_state(),
    {
        if self.native == 0 {
            return Err(BridgeError::IllegalState { session: SessionKind::Decoder });
        }
        Ok(ResetCall::new(self.native))
    }

    /// Closes the session and returns the native decoder to free, if it was
    /// still there.
    pub fn destroy(&mut self) -> (released: Option<u64>)
        ensures
            (final(self)@, released) == old(self)@.destroy(),
    {
        if self.native == 0 {
            return None;
        }
        proof {
            use_type_invariant(&*self);
        }
        let native = self.native;
        self.native = 0;
        Some(native)
    }
}

/// Creation goes ahead for one and for two channels, whatever the sample
/// rate, and a codec that reports success and hands over a decoder then gives
/// an open session with the default frame size. Any other channel count is
/// an invalid argument, and no native call is made for it. A codec that
/// reports a failure, or hands over nothing, gives an I/O failure.
pub proof fn lemma_decoder_creation(sample_rate: i32, channels: i32, native: u64, status: i32)
    ensures
        (channels == 1 || channels == 2) <==> DecoderState::create(sample_rate, channels) is Ok,
        !(channels == 1 || channels == 2) ==> DecoderState::create(sample_rate, channels) == Err::<
            CreateDecoder,
            BridgeError,
        >(BridgeError::InvalidArgument { parameter: Parameter::Channels, value: channels }),
        DecoderState::create(sample_rate, channels) matches Ok(call) ==> {
            &&& call.sample_rate == sample_rate
            &&& call.channels.count() == channels
            &&& (status == OPUS_OK && native != 0) ==> {
                &&& call.spec_finish(native, status) matches Ok(state)
                &&& state.is_open()
                &&& state.wf()
                &&& state.native == native
                &&& state.channels == call.channels
                &&& state.frame_size == DEFAULT_FRAME_SIZE
            }
            &&& !(status == OPUS_OK && native != 0) ==> call.spec_finish(native, status) == Err::<
                DecoderState,
                BridgeError,
            >(BridgeError::IoFailure { session: SessionKind::Decoder, code: status })
        },
{
}

/// Once a session is destroyed it is closed for good: reading the frame
/// size, setting it to a positive size, decoding and resetting all fail with
/// an illegal state, prepare no native call and leave the session as it is,
/// and destroying it again changes nothing and releases nothing.
pub proof fn lemma_destroyed_decoder_refuses(
    state: DecoderState,
    size: i32,
    packet: Option<Seq<u8>>,
    fec: bool,
)
    requires
        size > 0,
    ensures
        ({
            let closed = state.destroy().0;
            let refusal = BridgeError::IllegalState { session: SessionKind::Decoder };
            &&& !closed.is_open()
            &&& closed.set_frame_size(size) == (closed, Err::<(), BridgeError>(refusal))
            &&& closed.get_frame_size() == Err::<i32, BridgeError>(refusal)
            &&& closed.decode(packet, fec) == Err::<DecodeCallView, BridgeError>(refusal)
            &&& closed.reset_state() == Err::<ResetCall, BridgeError>(refusal)
            &&& closed.destroy() == (closed, None::<u64>)
        }),
{
}

/// A size that is not positive is refused as an invalid argument and the
/// stored frame size stays; after a size was stored, reading gives back
/// exactly that size.
pub proof fn lemma_frame_size_set_then_get(state: DecoderState, size: i32)
    ensures
        size <= 0 ==> state.set_frame_size(size) == (
            state,
            Err::<(), BridgeError>(
                BridgeError::InvalidArgument { parameter: Parameter::FrameSize, value: size },
            ),
        ),
        state.set_frame_size(size).1 is Ok ==> {
            &&& state.set_frame_size(size).0.get_frame_size() == Ok::<i32, BridgeError>(size)
            &&& state.set_frame_size(size).0.wf()
            &&& state.set_frame_size(size).0.native == state.native
            &&& state.set_frame_size(size).0.channels == state.channels
        },
{
}

/// The decode call of an open session makes room for `frame_size * channels`
/// samples and tells the codec the frame size that this room stands for,
/// which is the stored one.
pub proof fn lemma_decode_call_room(state: DecoderState, packet: Option<Seq<u8>>, fec: bool)
    requires
        state.wf(),
        state.is_open(),
    ensures
        state.decode(packet, fec) matches Ok(call) && {
            &&& call.native == state.native
            &&& call.output.len() == state.frame_size * state.channels.count()
            &&& call.frame_size == call.output.len() / (state.channels.count() as nat)
            &&& call.frame_size == state.frame_size
        },
{
}

/// Without a packet an open session asks for concealment whatever the
/// caller's flag says: the call passes no data and sets the flag. If the
/// codec then reports at least `frame_size * channels` samples, the host
/// gets exactly that many.
pub proof fn lemma_absent_packet_conceals(state: DecoderState, fec: bool, result: i32)
    requires
        state.wf(),
        state.is_open(),
    ensures
        state.decode(None, fec) == state.decode(None, true),
        state.decode(None, fec) matches Ok(call) && {
            &&& !call.has_data
            &&& call.data_len == 0
            &&& call.decode_fec == 1
            &&& result >= state.frame_size * state.channels.count() ==> {
                &&& call.finish(result) matches Ok(samples)
                &&& samples.len() == state.frame_size * state.channels.count()
            }
        },
{
}

/// No request takes the frame size of a session out of its range: after
/// setting the frame size and after closing, a session whose frame size was
/// positive and within the host's `int` still has one that is.
pub proof fn lemma_decoder_stays_well_formed(state: DecoderState, size: i32)
    requires
        state.wf(),
    ensures
        state.set_frame_size(size).0.wf(),
        state.destroy().0.wf(),
{
}

} // verus!
