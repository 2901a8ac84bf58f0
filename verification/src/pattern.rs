//! The pattern table, and one colour channel as bus bytes.
//!
//! A channel is sent as four bus bytes, one for each pair of its bits, the
//! most significant pair first.

use vstd::prelude::*;

verus! {

/// The bus byte for each value of a pair of bits. The bytes hold for one bus
/// clock rate: at another rate the strip would not read them as these bits.
pub const PATTERNS: [u8; 4] = [0b1000_1000, 0b1000_1110, 0b1110_1000, 0b1110_1110];

/// The bus byte that stands for the pair of bits of value `symbol`.
pub open spec fn pattern(symbol: int) -> u8 {
    if symbol == 0 {
        0b1000_1000u8
    } else if symbol == 1 {
        0b1000_1110u8
    } else if symbol == 2 {
        0b1110_1000u8
    } else {
        0b1110_1110u8
    }
}

/// The pair of bits that `byte` stands for, if it is in the table.
pub open spec fn symbol_of(byte: u8) -> Option<int> {
    if byte == 0b1000_1000u8 {
        Some(0int)
    } else if byte == 0b1000_1110u8 {
        Some(1int)
    } else if byte == 0b1110_1000u8 {
        Some(2int)
    } else if byte == 0b1110_1110u8 {
        Some(3int)
    } else {
        None
    }
}

/// The pair of bits of `value` at `place`, where place 0 is the most
/// significant pair and place 3 the least.
pub open spec fn symbol(value: u8, place: int) -> int {
    if place == 0 {
        value as int / 64
    } else if place == 1 {
        (value as int / 16) % 4
    } else if place == 2 {
        (value as int / 4) % 4
    } else {
        value as int % 4
    }
}

/// The four bus bytes of a channel of intensity `value`.
pub open spec fn channel_bytes(value: u8) -> Seq<u8> {
    Seq::new(4, |place: int| pattern(symbol(value, place)))
}

/// The intensity that four bus bytes stand for: the pairs of bits that the
/// bytes are found under in the table, the first as the most significant.
/// `None` where `bytes` are not four bytes of the table.
pub open spec fn channel_value(bytes: Seq<u8>) -> Option<u8> {
    if bytes.len() == 4 {
        match (symbol_of(bytes[0]), symbol_of(bytes[1]), symbol_of(bytes[2]), symbol_of(bytes[3])) {
            (Some(a), Some(b), Some(c), Some(d)) => Some((64 * a + 16 * b + 4 * c + d) as u8),
            _ => None,
        }
    } else {
        None
    }
}

/// Writes a channel as its four bus bytes.
pub fn encode_channel(value: u8) -> (bytes: [u8; 4])
    ensures
        bytes@ == channel_bytes(value),
{
    let mut bytes = [0u8; 4];
    let mut rest = value;
    for place in 0..4usize
        invariant
            forall|k: int| 0 <= k < place ==> bytes@[k] == pattern(symbol(value, k)),
            place <= 3 ==> symbol(rest, 0) == symbol(value, place as int),
            place <= 2 ==> symbol(rest, 1) == symbol(value, place + 1),
            place <= 1 ==> symbol(rest, 2) == symbol(value, place + 2),
            place == 0 ==> symbol(rest, 3) == symbol(value, 3),
    {
        let top = (rest & 0b1100_0000) >> 6;
        let next = rest << 2;
        assert(top == rest / 64 && next / 64 == (rest / 16) % 4 && (next / 16) % 4 == (rest / 4) % 4
            && (next / 4) % 4 == rest % 4) by (bit_vector)
            requires
                top == (rest & 0b1100_0000) >> 6,
                next == rest << 2,
        ;
        bytes[place] = PATTERNS[top as usize];
        rest = next;
    }
    bytes
}

/// Reads a pair of bits back from its bus byte.
pub fn decode_symbol(byte: u8) -> (found: Option<u8>)
    ensures
        found is Some <==> symbol_of(byte) is Some,
        found is Some ==> found->0 == symbol_of(byte)->0,
{
    let mut k: u8 = 0;
    while k < 4
        invariant
            k <= 4,
            forall|j: int| 0 <= j < k ==> pattern(j) != byte,
        decreases 4 - k,
    {
        if PATTERNS[k as usize] == byte {
            return Some(k);
        }
        k += 1;
    }
    assert(pattern(0) != byte && pattern(1) != byte && pattern(2) != byte && pattern(3) != byte);
    None
}

/// Reads a channel back from its bus bytes: each byte is looked up in the
/// table, and the pairs found are put together, the first as the most
/// significant.
pub fn decode_channel(bytes: &[u8]) -> (value: Option<u8>)
    ensures
        value == channel_value(bytes@),
{
    if bytes.len() != 4 {
        return None;
    }
    let mut value: u8 = 0;
    for place in 0..4usize
        invariant
            bytes@.len() == 4,
            forall|k: int| 0 <= k < place ==> symbol_of(#[trigger] bytes@[k]) is Some,
            place == 0 ==> value == 0,
            place == 1 ==> value == symbol_of(bytes@[0])->0,
            place == 2 ==> value == 4 * symbol_of(bytes@[0])->0 + symbol_of(bytes@[1])->0,
            place == 3 ==> value == 16 * symbol_of(bytes@[0])->0 + 4 * symbol_of(bytes@[1])->0
                + symbol_of(bytes@[2])->0,
            place == 4 ==> value == 64 * symbol_of(bytes@[0])->0 + 16 * symbol_of(bytes@[1])->0 + 4
                * symbol_of(bytes@[2])->0 + symbol_of(bytes@[3])->0,
    {
        match decode_symbol(bytes[place]) {
            Some(pair) => {
                value = value * 4 + pair;
            },
            None => {
                return None;
            },
        }
    }
    Some(value)
}

/// Each byte of the table is found again in its own place.
pub proof fn lemma_symbol_of_pattern(symbol: int)
    requires
        0 <= symbol < 4,
    ensures
        symbol_of(pattern(symbol)) == Some(symbol),
{
}

/// The four pairs of bits of a value, weighted by their places, make up the
/// value.
pub proof fn lemma_symbols_make_value(value: u8)
    ensures
        forall|place: int| 0 <= place < 4 ==> 0 <= #[trigger] symbol(value, place) < 4,
        value == 64 * symbol(value, 0) + 16 * symbol(value, 1) + 4 * symbol(value, 2) + symbol(
            value,
            3,
        ),
{
    assert(value == 64 * (value / 64) + 16 * ((value / 16) % 4) + 4 * ((value / 4) % 4) + value % 4
        && value / 64 < 4) by (bit_vector);
}

/// A channel that is written as bus bytes and read back is the same channel.
pub proof fn lemma_channel_round_trip(value: u8)
    ensures
        channel_value(channel_bytes(value)) == Some(value),
{
    let bytes = channel_bytes(value);
    lemma_symbols_make_value(value);
    assert forall|place: int| 0 <= place < 4 implies symbol_of(#[trigger] bytes[place]) == Some(
        symbol(value, place),
    ) by {
        lemma_symbol_of_pattern(symbol(value, place));
    }
}

/// Bus bytes that can be read back are those that the value read is written
/// as: no two runs of four bytes stand for one intensity.
pub proof fn lemma_channel_bytes_unique(bytes: Seq<u8>)
    requires
        channel_value(bytes) is Some,
    ensures
        bytes == channel_bytes(channel_value(bytes)->0),
{
}

} // verus!
