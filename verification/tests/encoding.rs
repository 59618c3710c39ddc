use esp32_ws2812b::color::Color;
use esp32_ws2812b::packet::{build_packet, decode_packet, PACKET_SIZE};
use esp32_ws2812b::pulse::{
    decode_bit, encode_bit, encode_one, encode_zero, Level, PulseCode, MAX_TICKS,
};

fn bits_of(byte: u8) -> Vec<bool> {
    (0..8).rev().map(|shift| (byte >> shift) & 1 == 1).collect()
}

#[test]
fn hello_test() {
    assert_eq!(1 + 1, 2);
}

#[test]
fn one_is_sixteen_high_nine_low() {
    let one = encode_one();
    assert_eq!(one.high_level, Level::High);
    assert_eq!(one.high_ticks, 16);
    assert_eq!(one.low_level, Level::Low);
    assert_eq!(one.low_ticks, 9);
}

#[test]
fn zero_is_eight_high_seventeen_low() {
    let zero = encode_zero();
    assert_eq!(zero.high_level, Level::High);
    assert_eq!(zero.high_ticks, 8);
    assert_eq!(zero.low_level, Level::Low);
    assert_eq!(zero.low_ticks, 17);
}

#[test]
fn one_is_high_for_longer_than_zero() {
    assert!(encode_one().high_ticks > encode_zero().high_ticks);
    assert!(encode_one().low_ticks < encode_zero().low_ticks);
    assert_eq!(
        encode_one().high_ticks + encode_one().low_ticks,
        encode_zero().high_ticks + encode_zero().low_ticks
    );
}

#[test]
fn encode_bit_picks_the_symbol() {
    assert_eq!(encode_bit(true), encode_one());
    assert_eq!(encode_bit(false), encode_zero());
    assert_ne!(encode_one(), encode_zero());
}

#[test]
fn decode_bit_reads_the_symbols_only() {
    assert_eq!(decode_bit(encode_one()), Some(true));
    assert_eq!(decode_bit(encode_zero()), Some(false));
    assert_eq!(decode_bit(PulseCode::empty()), None);
    let odd = PulseCode { high_level: Level::High, high_ticks: 16, low_level: Level::Low, low_ticks: 8 };
    assert_eq!(decode_bit(odd), None);
    let inverted =
        PulseCode { high_level: Level::Low, high_ticks: 16, low_level: Level::High, low_ticks: 9 };
    assert_eq!(decode_bit(inverted), None);
}

#[test]
fn words_of_the_protocol_symbols() {
    assert_eq!(encode_one().word(), 0x0009_8010);
    assert_eq!(encode_zero().word(), 0x0011_8008);
    assert_eq!(PulseCode::empty().word(), 0);
}

#[test]
fn word_layout_puts_the_first_phase_low() {
    let code =
        PulseCode { high_level: Level::Low, high_ticks: 1, low_level: Level::High, low_ticks: 2 };
    assert_eq!(code.word(), 0x8002_0001);
    let full = PulseCode {
        high_level: Level::High,
        high_ticks: MAX_TICKS,
        low_level: Level::High,
        low_ticks: MAX_TICKS,
    };
    assert_eq!(full.word(), 0xffff_ffff);
}

#[test]
fn word_drops_the_sixteenth_bit_of_a_duration() {
    let code = PulseCode {
        high_level: Level::Low,
        high_ticks: 0x8005,
        low_level: Level::Low,
        low_ticks: 0xffff,
    };
    assert_eq!(code.word(), 0x7fff_0005);
}

#[test]
fn from_word_reads_back_what_word_wrote() {
    for code in [encode_one(), encode_zero(), PulseCode::empty()] {
        assert_eq!(PulseCode::from_word(code.word()), code);
    }
    let code = PulseCode::from_word(0x8002_0001);
    assert_eq!(code.high_level, Level::Low);
    assert_eq!(code.high_ticks, 1);
    assert_eq!(code.low_level, Level::High);
    assert_eq!(code.low_ticks, 2);
    for word in [0u32, 1, 0x8000, 0x1_0000, 0x8000_0000, 0xdead_beef, u32::MAX] {
        assert_eq!(PulseCode::from_word(word).word(), word);
    }
}

#[test]
fn packet_sends_green_then_red_then_blue_msb_first() {
    let color = Color { r: 0b1010_0101, g: 0b1100_0011, b: 0b0000_1111 };
    let packet = build_packet(color);
    assert_eq!(packet.len(), PACKET_SIZE);
    let mut expected = bits_of(color.g);
    expected.extend(bits_of(color.r));
    expected.extend(bits_of(color.b));
    for (code, bit) in packet.iter().zip(expected) {
        assert_eq!(*code, encode_bit(bit));
    }
}

#[test]
fn packet_of_pure_red() {
    let packet = build_packet(Color { r: 255, g: 0, b: 0 });
    for i in 0..8 {
        assert_eq!(packet[i], encode_zero());
        assert_eq!(packet[8 + i], encode_one());
        assert_eq!(packet[16 + i], encode_zero());
    }
}

#[test]
fn packet_of_single_bits() {
    let packet = build_packet(Color { r: 1, g: 128, b: 2 });
    let ones: Vec<usize> =
        (0..PACKET_SIZE).filter(|i| packet[*i] == encode_one()).collect();
    assert_eq!(ones, vec![0, 15, 22]);
}

#[test]
fn packet_round_trip() {
    let colors = [
        Color { r: 0, g: 0, b: 0 },
        Color { r: 255, g: 255, b: 255 },
        Color { r: 255, g: 0, b: 0 },
        Color { r: 0, g: 255, b: 0 },
        Color { r: 0, g: 0, b: 255 },
        Color { r: 1, g: 2, b: 4 },
        Color { r: 0x12, g: 0x34, b: 0x56 },
        Color { r: 240, g: 248, b: 255 },
    ];
    for color in colors {
        assert_eq!(decode_packet(&build_packet(color)), Some(color));
    }
}

#[test]
fn packet_round_trip_of_every_byte() {
    for value in 0..=255u8 {
        let color = Color { r: value, g: value.wrapping_add(85), b: value.wrapping_mul(3) };
        assert_eq!(decode_packet(&build_packet(color)), Some(color));
    }
}

#[test]
fn decode_packet_refuses_a_foreign_symbol() {
    let mut packet = build_packet(Color { r: 9, g: 8, b: 7 });
    packet[23] = PulseCode::empty();
    assert_eq!(decode_packet(&packet), None);
    let mut packet = build_packet(Color { r: 9, g: 8, b: 7 });
    packet[0] = PulseCode { high_level: Level::High, high_ticks: 16, low_level: Level::Low, low_ticks: 10 };
    assert_eq!(decode_packet(&packet), None);
}
