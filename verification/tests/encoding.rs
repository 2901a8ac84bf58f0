use ws2812_async::pattern::{decode_channel, decode_symbol, encode_channel};
use ws2812_async::{Action, BusOp, Color, Payload, Ws2812, PATTERNS};

const RED: Color = Color { r: 255, g: 0, b: 0 };
const GREEN: Color = Color { r: 0, g: 255, b: 0 };
const BLUE: Color = Color { r: 0, g: 0, b: 255 };

/// Takes the first step of a call that sends `colors`, and hands back what
/// the output buffer then holds.
fn buffer_after<const N: usize>(driver: &mut Ws2812<N>, colors: &[Color]) -> Vec<u8> {
    let mut transfer = driver.write_colors(colors);
    let action = transfer.step(driver, Ok::<(), u32>(()));
    assert_eq!(action, Action::Perform(BusOp::Write(Payload::Data)));
    driver.bytes(Payload::Data).to_vec()
}

/// Looks each byte up in the table and puts the pairs of bits together.
fn lookup_back(bytes: &[u8]) -> Option<u8> {
    let mut value: u32 = 0;
    for byte in bytes {
        let pair = PATTERNS.iter().position(|p| p == byte)?;
        value = (value << 2) | pair as u32;
    }
    Some(value as u8)
}

#[test]
fn pattern_table_has_the_four_bytes() {
    assert_eq!(PATTERNS, [0x88, 0x8E, 0xE8, 0xEE]);
}

#[test]
fn channel_is_four_bytes_most_significant_pair_first() {
    assert_eq!(encode_channel(0b11_10_01_00), [0xEE, 0xE8, 0x8E, 0x88]);
    assert_eq!(encode_channel(0b00_01_10_11), [0x88, 0x8E, 0xE8, 0xEE]);
    assert_eq!(encode_channel(0), [0x88, 0x88, 0x88, 0x88]);
    assert_eq!(encode_channel(255), [0xEE, 0xEE, 0xEE, 0xEE]);
    assert_eq!(encode_channel(1), [0x88, 0x88, 0x88, 0x8E]);
    assert_eq!(encode_channel(0x40), [0x8E, 0x88, 0x88, 0x88]);
}

#[test]
fn every_channel_value_round_trips() {
    for value in 0..=255u8 {
        let bytes = encode_channel(value);
        assert_eq!(decode_channel(&bytes), Some(value));
        assert_eq!(lookup_back(&bytes), Some(value));
    }
}

#[test]
fn decode_symbol_finds_table_bytes_only() {
    assert_eq!(decode_symbol(0x88), Some(0));
    assert_eq!(decode_symbol(0x8E), Some(1));
    assert_eq!(decode_symbol(0xE8), Some(2));
    assert_eq!(decode_symbol(0xEE), Some(3));
    assert_eq!(decode_symbol(0x00), None);
    assert_eq!(decode_symbol(0xFF), None);
    assert_eq!(decode_symbol(0x89), None);
}

#[test]
fn decode_channel_refuses_what_is_no_encoding() {
    assert_eq!(decode_channel(&[0x88, 0x88, 0x88]), None);
    assert_eq!(decode_channel(&[0x88, 0x88, 0x88, 0x88, 0x88]), None);
    assert_eq!(decode_channel(&[]), None);
    assert_eq!(decode_channel(&[0x88, 0x88, 0x00, 0x88]), None);
    assert_eq!(decode_channel(&[0x88, 0x88, 0x88, 0x87]), None);
    assert_eq!(decode_channel(&[0x8E, 0x88, 0x88, 0xE8]), Some(0x42));
}

#[test]
fn new_buffer_is_all_zero() {
    let driver = Ws2812::<36>::new(false);
    assert_eq!(driver.bytes(Payload::Data), &[0u8; 36][..]);
}

#[test]
fn led_count_is_a_twelfth_of_the_buffer() {
    assert_eq!(Ws2812::<0>::new(false).led_count(), 0);
    assert_eq!(Ws2812::<12>::new(false).led_count(), 1);
    assert_eq!(Ws2812::<36>::new(false).led_count(), 3);
    assert_eq!(Ws2812::<47>::new(false).led_count(), 3);
}

#[test]
fn three_leds_red_green_blue() {
    let mut driver = Ws2812::<36>::new(false);
    let buffer = buffer_after(&mut driver, &[RED, GREEN, BLUE]);
    let hi = [0xEE; 4];
    let lo = [0x88; 4];
    let expected: Vec<u8> = [hi, lo, lo, lo, hi, lo, lo, lo, hi].concat();
    assert_eq!(buffer, expected);
    assert_eq!(buffer.len(), 36);
}

#[test]
fn channels_go_red_green_blue() {
    let mut driver = Ws2812::<12>::new(false);
    let buffer = buffer_after(&mut driver, &[Color { r: 0x01, g: 0x40, b: 0x1B }]);
    assert_eq!(
        buffer,
        vec![0x88, 0x88, 0x88, 0x8E, 0x8E, 0x88, 0x88, 0x88, 0x88, 0x8E, 0xE8, 0xEE]
    );
    for (channel, value) in buffer.chunks(4).zip([0x01u8, 0x40, 0x1B]) {
        assert_eq!(decode_channel(channel), Some(value));
    }
}

#[test]
fn buffer_length_is_twelve_per_led() {
    let mut none = Ws2812::<0>::new(false);
    assert_eq!(buffer_after(&mut none, &[]).len(), 0);
    assert_eq!(buffer_after(&mut none, &[RED]).len(), 0);
    let mut one = Ws2812::<12>::new(false);
    assert_eq!(buffer_after(&mut one, &[RED]).len(), 12);
    let mut many = Ws2812::<1200>::new(false);
    let colors = vec![BLUE; 100];
    let buffer = buffer_after(&mut many, &colors);
    assert_eq!(buffer.len(), 12 * 100);
    assert!(buffer.chunks(12).all(|led| led[..8] == [0x88; 8] && led[8..] == [0xEE; 4]));
}

#[test]
fn fewer_colors_leave_the_tail_as_it_was() {
    let mut driver = Ws2812::<36>::new(false);
    let first = buffer_after(&mut driver, &[RED]);
    assert_eq!(&first[..4], &[0xEE; 4]);
    assert_eq!(&first[4..12], &[0x88; 8]);
    assert_eq!(&first[12..], &[0u8; 24]);

    let full = buffer_after(&mut driver, &[BLUE, BLUE, BLUE]);
    let second = buffer_after(&mut driver, &[GREEN]);
    assert_eq!(second.len(), 36);
    assert_eq!(&second[..4], &[0x88; 4]);
    assert_eq!(&second[4..8], &[0xEE; 4]);
    assert_eq!(&second[8..12], &[0x88; 4]);
    assert_eq!(&second[12..], &full[12..]);
}

#[test]
fn no_colors_leave_the_buffer_as_it_was() {
    let mut driver = Ws2812::<24>::new(false);
    let before = buffer_after(&mut driver, &[RED, GREEN]);
    let after = buffer_after(&mut driver, &[]);
    assert_eq!(after, before);
}

#[test]
fn colors_beyond_the_room_are_left_out() {
    let mut driver = Ws2812::<24>::new(false);
    let long = buffer_after(&mut driver, &[RED, GREEN, BLUE, BLUE, RED]);
    let mut exact = Ws2812::<24>::new(false);
    assert_eq!(long, buffer_after(&mut exact, &[RED, GREEN]));
}

#[test]
fn a_buffer_of_odd_length_keeps_its_last_bytes() {
    let mut driver = Ws2812::<13>::new(false);
    let buffer = buffer_after(&mut driver, &[RED, GREEN]);
    assert_eq!(buffer.len(), 13);
    assert_eq!(&buffer[..4], &[0xEE; 4]);
    assert_eq!(&buffer[4..12], &[0x88; 8]);
    assert_eq!(buffer[12], 0);
}
