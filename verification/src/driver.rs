//! The driver: the output buffer and the calls that fill and send it.

use crate::color::Color;
use crate::frame::{color_bytes, encoded, leds_taken, LED_BYTES};
use crate::pattern::{channel_bytes, encode_channel};
use crate::transfer::{
    blank_bytes, colors_ops, filler_bytes, framed_ops, payload_bytes, reset_ops, Payload, Transfer,
    BLANK_LEN, FILLER_LEN,
};
use vstd::prelude::*;

verus! {

/// A driver for a strip of `N / 12` LEDs, with an output buffer of `N`
/// bytes.
///
/// Its view is what the output buffer holds.
pub struct Ws2812<const N: usize> {
    data: [u8; N],
    blank: [u8; BLANK_LEN],
    filler: [u8; FILLER_LEN],
    mosi_idle_high: bool,
}

impl<const N: usize> View for Ws2812<N> {
    type V = Seq<u8>;

    closed spec fn view(&self) -> Seq<u8> {
        self.data@
    }
}

impl<const N: usize> Ws2812<N> {
    #[verifier::type_invariant]
    spec fn well_formed(self) -> bool {
        &&& self.blank@ == blank_bytes()
        &&& self.filler@ == filler_bytes()
    }

    /// Whether the line idles high between calls, so that a framed call
    /// sends a reset ahead of the colours.
    pub closed spec fn mosi_idle_high(&self) -> bool {
        self.mosi_idle_high
    }

    /// The buffer is as long as the type says.
    pub proof fn lemma_len(&self)
        ensures
            self@.len() == N,
    {
    }

    /// A driver whose output buffer is all zero.
    pub fn new(mosi_idle_high: bool) -> (driver: Self)
        ensures
            driver@ == Seq::new(N as nat, |i: int| 0u8),
            driver.mosi_idle_high() == mosi_idle_high,
    {
        let data = [0u8; N];
        let blank = [0u8; BLANK_LEN];
        let filler = [0u8; FILLER_LEN];
        assert(data@ =~= Seq::new(N as nat, |i: int| 0u8));
        assert(blank@ =~= blank_bytes());
        assert(filler@ =~= filler_bytes());
        Ws2812 { data, blank, filler, mosi_idle_high }
    }

    /// The number of LEDs that the buffer has room for.
    pub fn led_count(&self) -> (count: usize)
        ensures
            count == N / 12,
    {
        N / LED_BYTES
    }

    /// The bytes that a write of `payload` puts on the bus.
    pub fn bytes(&self, payload: Payload) -> (out: &[u8])
        ensures
            out@ == payload_bytes(self@, payload),
    {
        proof {
            use_type_invariant(self);
        }
        match payload {
            Payload::Filler => self.filler.as_slice(),
            Payload::Blank => self.blank.as_slice(),
            Payload::Data => self.data.as_slice(),
        }
    }

    /// Writes the four bus bytes of a channel into the buffer, from `at` on.
    fn put_channel(&mut self, at: usize, value: u8)
        requires
            at + 4 <= N,
        ensures
            final(self)@.len() == N,
            forall|i: int|
                0 <= i < N ==> final(self)@[i] == if at <= i < at + 4 {
                    channel_bytes(value)[i - at]
                } else {
                    old(self)@[i]
                },
            final(self).mosi_idle_high() == old(self).mosi_idle_high(),
    {
        proof {
            use_type_invariant(&*self);
        }
        let bytes = encode_channel(value);
        for k in 0..4usize
            invariant
                at + 4 <= N,
                bytes@ == channel_bytes(value),
                self.blank@ == blank_bytes(),
                self.filler@ == filler_bytes(),
                self.mosi_idle_high == old(self).mosi_idle_high,
                forall|i: int|
                    0 <= i < N ==> self.data@[i] == if at <= i < at + k {
                        bytes@[i - at]
                    } else {
                        old(self).data@[i]
                    },
        {
            self.data[at + k] = bytes[k];
        }
    }

    /// Encodes `colors` into the buffer, as many as it has room for, from
    /// its start on. Colours beyond that are left out, and the bytes behind
    /// the last colour stay as they were.
    pub(crate) fn encode(&mut self, colors: &[Color])
        ensures
            final(self)@ == encoded(old(self)@, colors@),
            final(self).mosi_idle_high() == old(self).mosi_idle_high(),
    {
        let room = N / LED_BYTES;
        let taken = if colors.len() <= room {
            colors.len()
        } else {
            room
        };
        let mut led: usize = 0;
        while led < taken
            invariant
                led <= taken,
                taken == leds_taken(N as nat, colors@.len()),
                self@.len() == N,
                self.mosi_idle_high() == old(self).mosi_idle_high(),
                forall|i: int| 0 <= i < 12 * led ==> self@[i] == color_bytes(colors@[i / 12])[i % 12],
                forall|i: int| 12 * led <= i < N ==> self@[i] == old(self)@[i],
            decreases taken - led,
        {
            let color = colors[led];
            let at = LED_BYTES * led;
            self.put_channel(at, color.r);
            self.put_channel(at + 4, color.g);
            self.put_channel(at + 8, color.b);
            led += 1;
        }
        assert(self@ =~= encoded(old(self)@, colors@));
    }

    /// Begins a call that encodes `colors` and sends them: the output
    /// buffer, then a reset.
    pub fn write_colors<'a>(&self, colors: &'a [Color]) -> (transfer: Transfer<'a>)
        ensures
            transfer@ == colors_ops(),
            transfer.colors() == colors@,
    {
        Transfer::of_colors(colors)
    }

    /// Begins a reset: the blank buffer alone, which makes the strip latch
    /// what it was sent before.
    pub fn flush(&self) -> (transfer: Transfer<'static>)
        ensures
            transfer@ == reset_ops(),
            transfer.colors() == Seq::<Color>::empty(),
    {
        Transfer::of_reset()
    }

    /// Begins a framed call, for a caller that cannot wait for the bus: the
    /// filler, a reset where the line idles high, the colours as in
    /// [`Ws2812::write_colors`], and a read that takes the filler's byte
    /// back.
    pub fn write<'a>(&self, colors: &'a [Color]) -> (transfer: Transfer<'a>)
        ensures
            transfer@ == framed_ops(self.mosi_idle_high()),
            transfer.colors() == colors@,
    {
        Transfer::of_framed(colors, self.mosi_idle_high)
    }
}

} // verus!
