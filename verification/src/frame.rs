//! What the output buffer holds.
//!
//! Each LED takes twelve bytes of the buffer: four for each channel, red,
//! then green, then blue.

use crate::color::Color;
use crate::pattern::channel_bytes;
use vstd::prelude::*;

verus! {

/// The bytes of the buffer that one LED takes.
pub const LED_BYTES: usize = 12;

/// The twelve bus bytes of one colour.
pub open spec fn color_bytes(color: Color) -> Seq<u8> {
    channel_bytes(color.r) + channel_bytes(color.g) + channel_bytes(color.b)
}

/// The bus bytes of a run of colours, one colour after the other.
pub open spec fn frame_bytes(colors: Seq<Color>) -> Seq<u8> {
    Seq::new(12 * colors.len(), |i: int| color_bytes(colors[i / 12])[i % 12])
}

/// How many of `given` colours a buffer of `capacity` bytes takes: all of
/// them, or as many as it has room for.
pub open spec fn leds_taken(capacity: nat, given: nat) -> nat {
    if given <= capacity / 12 {
        given
    } else {
        capacity / 12
    }
}

/// The buffer after `colors` were encoded into it: the bus bytes of the
/// colours taken, and behind them what the buffer held there before.
pub open spec fn encoded(buffer: Seq<u8>, colors: Seq<Color>) -> Seq<u8> {
    let taken = leds_taken(buffer.len(), colors.len());
    frame_bytes(colors.take(taken as int)) + buffer.skip(12 * taken as int)
}

/// Encoding keeps the buffer's length, whatever the number of colours.
pub proof fn lemma_encoded_len(buffer: Seq<u8>, colors: Seq<Color>)
    ensures
        encoded(buffer, colors).len() == buffer.len(),
{
}

/// With fewer colours than the buffer has room for, the bytes behind those
/// of the last colour stay as they were.
pub proof fn lemma_encoded_keeps_tail(buffer: Seq<u8>, colors: Seq<Color>, i: int)
    requires
        12 * colors.len() <= i < buffer.len(),
    ensures
        encoded(buffer, colors)[i] == buffer[i],
{
}

/// A buffer of twelve bytes for each LED that is given at least one colour
/// for each LED holds twelve bytes for each colour taken, and nothing of
/// what it held before.
pub proof fn lemma_encoded_full(buffer: Seq<u8>, colors: Seq<Color>)
    requires
        buffer.len() % 12 == 0,
        colors.len() >= buffer.len() / 12,
    ensures
        encoded(buffer, colors).len() == 12 * leds_taken(buffer.len(), colors.len()),
        encoded(buffer, colors) == frame_bytes(colors.take(buffer.len() as int / 12)),
{
}

} // verus!
