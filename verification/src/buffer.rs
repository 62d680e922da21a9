//! Buffers that cross the bridge: how long the codec is told they are, how
//! they are allocated, and how much of them goes back to the host.

use vstd::prelude::*;
use crate::config::Channels;

verus! {

/// A buffer length as the codec's `int` parameter receives it. Lengths up to
/// `i32::MAX`, which is all a host array can have, are unchanged; a longer one
/// keeps its low 32 bits, as the narrowing conversion does.
pub open spec fn native_len(len: int) -> i32 {
    len as i32
}

/// The quotient of `a` by a positive `b`, rounded toward zero.
pub open spec fn quotient_toward_zero(a: int, b: int) -> int {
    if a >= 0 {
        a / b
    } else {
        -((-a) / b)
    }
}

/// Samples per channel in an interleaved input of `samples` samples: the
/// length, as the codec sees it, divided by the channel count. A remainder is
/// dropped, so a length that is no multiple of the channel count loses its
/// last sample.
pub open spec fn spec_samples_per_channel(samples: int, channels: Channels) -> i32 {
    quotient_toward_zero(native_len(samples) as int, channels.count() as int) as i32
}

/// Samples per channel that an output buffer of `capacity` samples has room
/// for, as the codec's `int` parameter receives it.
pub open spec fn spec_frame_capacity(capacity: int, channels: Channels) -> i32 {
    native_len(capacity / channels.count() as int)
}

/// What goes back to the host of a buffer of which the codec filled `count`
/// places: the first `count` elements, and all of them if there are no more.
pub open spec fn produced<T>(buffer: Seq<T>, count: int) -> Seq<T> {
    if 0 <= count <= buffer.len() {
        buffer.take(count)
    } else {
        buffer
    }
}

/// The length `len` converted for the codec.
pub fn to_native_len(len: usize) -> (n: i32)
    ensures
        n == native_len(len as int),
        len <= i32::MAX ==> n == len,
{
    #[verifier::truncate]
    (len as i32)
}

/// The frame size of an encode call on `samples` interleaved samples.
pub fn samples_per_channel(samples: usize, channels: Channels) -> (n: i32)
    ensures
        n == spec_samples_per_channel(samples as int, channels),
        samples <= i32::MAX ==> n == samples as int / channels.count() as int,
{
    to_native_len(samples) / channels.count()
}

/// The frame size of a decode call into a buffer of `capacity` samples.
pub fn frame_capacity(capacity: usize, channels: Channels) -> (n: i32)
    ensures
        n == spec_frame_capacity(capacity as int, channels),
        capacity <= i32::MAX ==> n == capacity as int / channels.count() as int,
{
    let count: usize = channels.count() as usize;
    to_native_len(capacity / count)
}

/// A payload buffer of `len` zero bytes.
pub fn zeroed_bytes(len: usize) -> (buffer: Vec<u8>)
    ensures
        buffer@ == Seq::new(len as nat, |i: int| 0u8),
{
    let buffer = vec![0u8; len];
    assert(buffer@ =~= Seq::new(len as nat, |i: int| 0u8));
    buffer
}

/// A sample buffer of `len` zero samples.
pub fn zeroed_samples(len: usize) -> (buffer: Vec<i16>)
    ensures
        buffer@ == Seq::new(len as nat, |i: int| 0i16),
{
    let buffer = vec![0i16; len];
    assert(buffer@ =~= Seq::new(len as nat, |i: int| 0i16));
    buffer
}

/// Cuts `buffer` down to the `count` elements that the codec produced.
pub fn keep_produced<T>(buffer: Vec<T>, count: usize) -> (kept: Vec<T>)
    ensures
        kept@ == produced(buffer@, count as int),
{
    let mut kept = buffer;
    kept.truncate(count);
    assert(kept@ =~= produced(buffer@, count as int));
    kept
}

} // verus!
