//! Packets: the 24 pulse codes that carry one LED's colour.

use vstd::arithmetic::power2::{lemma2_to64, lemma_pow2_unfold, pow2};
use vstd::prelude::*;
use crate::color::Color;
use crate::pulse::{bit_code, code_bit, decode_bit, encode_bit, PulseCode};

verus! {

/// Pulse codes in a packet: three bytes of eight bits.
pub const PACKET_SIZE: usize = 24;

/// One LED's worth of pulse codes.
pub type Packet = [PulseCode; 24];

/// The bytes of a colour in the order in which they are sent: green, red,
/// blue.
pub open spec fn wire_byte(color: Color, index: int) -> u8 {
    if index == 0 {
        color.g
    } else if index == 1 {
        color.r
    } else {
        color.b
    }
}

/// The weight of bit `position` of a byte, counted from the most
/// significant bit: 128 for position 0, 1 for position 7.
pub open spec fn bit_weight(position: int) -> int {
    if position <= 0 {
        128
    } else if position == 1 {
        64
    } else if position == 2 {
        32
    } else if position == 3 {
        16
    } else if position == 4 {
        8
    } else if position == 5 {
        4
    } else if position == 6 {
        2
    } else {
        1
    }
}

/// Bit `position` of `byte`, counted from the most significant bit.
pub open spec fn byte_bit(byte: u8, position: int) -> bool {
    (byte as int / bit_weight(position)) % 2 == 1
}

/// The logical bit that is sent at place `index` of a colour's packet.
pub open spec fn wire_bit(color: Color, index: int) -> bool {
    byte_bit(wire_byte(color, index / 8), index % 8)
}

/// The packet of a colour: green, red and blue byte, each with its most
/// significant bit first, one pulse code for a bit.
pub open spec fn packet_codes(color: Color) -> Seq<PulseCode> {
    Seq::new(PACKET_SIZE as nat, |i: int| bit_code(wire_bit(color, i)))
}

/// The number that the `count` bits from `start` on spell, the first of
/// them being the most significant. A code that stands for no bit counts as
/// a zero bit.
pub open spec fn bits_value(codes: Seq<PulseCode>, start: int, count: int) -> int
    decreases count,
{
    if count <= 0 {
        0
    } else {
        2 * bits_value(codes, start, count - 1) + if code_bit(codes[start + count - 1]) == Some(
            true,
        ) {
            1int
        } else {
            0int
        }
    }
}

/// Whether every code of the sequence is a data symbol.
pub open spec fn all_data(codes: Seq<PulseCode>) -> bool {
    forall|i: int| 0 <= i < codes.len() ==> code_bit(#[trigger] codes[i]) is Some
}

/// The colour that a packet carries: `None` unless it holds exactly 24 data
/// symbols.
pub open spec fn packet_color(codes: Seq<PulseCode>) -> Option<Color> {
    if codes.len() == PACKET_SIZE && all_data(codes) {
        Some(
            Color {
                g: bits_value(codes, 0, 8) as u8,
                r: bits_value(codes, 8, 8) as u8,
                b: bits_value(codes, 16, 8) as u8,
            },
        )
    } else {
        None
    }
}

/// Shifting a byte right and masking its lowest bit reads the bit whose
/// weight is two to the power of the shift.
proof fn lemma_shift_reads_bit(byte: u8, shift: u8)
    by (bit_vector)
    ensures
        shift == 7 ==> ((byte >> shift) & 1 == 1 <==> (byte / 128) % 2 == 1),
        shift == 6 ==> ((byte >> shift) & 1 == 1 <==> (byte / 64) % 2 == 1),
        shift == 5 ==> ((byte >> shift) & 1 == 1 <==> (byte / 32) % 2 == 1),
        shift == 4 ==> ((byte >> shift) & 1 == 1 <==> (byte / 16) % 2 == 1),
        shift == 3 ==> ((byte >> shift) & 1 == 1 <==> (byte / 8) % 2 == 1),
        shift == 2 ==> ((byte >> shift) & 1 == 1 <==> (byte / 4) % 2 == 1),
        shift == 1 ==> ((byte >> shift) & 1 == 1 <==> (byte / 2) % 2 == 1),
        shift == 0 ==> ((byte >> shift) & 1 == 1 <==> (byte / 1) % 2 == 1),
{
}

fn encode_byte(packet: &mut Packet, start: usize, byte: u8)
    requires
        start + 8 <= PACKET_SIZE,
    ensures
        forall|i: int|
            start <= i < start + 8 ==> final(packet)@[i] == bit_code(byte_bit(byte, i - start)),
        forall|i: int|
            0 <= i < PACKET_SIZE && !(start <= i < start + 8) ==> final(packet)@[i] == old(
                packet,
            )@[i],
{
    let mut position: usize = 0;
    while position < 8
        invariant
            position <= 8,
            start + 8 <= PACKET_SIZE,
            forall|i: int|
                start <= i < start + position ==> packet@[i] == bit_code(
                    byte_bit(byte, i - start),
                ),
            forall|i: int|
                0 <= i < PACKET_SIZE && !(start <= i < start + position) ==> packet@[i] == old(
                    packet,
                )@[i],
        decreases 8 - position,
    {
        let shift: u8 = (7 - position) as u8;
        let bit = (byte >> shift) & 1 == 1;
        proof {
            lemma_shift_reads_bit(byte, shift);
        }
        packet[start + position] = encode_bit(bit);
        position += 1;
    }
}

/// Builds the packet of `color`.
pub fn build_packet(color: Color) -> (packet: Packet)
    ensures
        packet@ == packet_codes(color),
{
    let mut packet: Packet = [PulseCode::empty();24];
    encode_byte(&mut packet, 0, color.g);
    encode_byte(&mut packet, 8, color.r);
    encode_byte(&mut packet, 16, color.b);
    assert(packet@ =~= packet_codes(color));
    packet
}

/// The bits from `start` on spell a number below two to the power of their
/// count.
proof fn lemma_bits_value_bound(codes: Seq<PulseCode>, start: int, count: nat)
    ensures
        0 <= bits_value(codes, start, count as int) < pow2(count),
    decreases count,
{
    if count == 0 {
        lemma2_to64();
    } else {
        lemma_bits_value_bound(codes, start, (count - 1) as nat);
        lemma_pow2_unfold(count);
    }
}

/// Eight codes that were made from the bits of a byte spell that byte.
proof fn lemma_byte_round_trip(codes: Seq<PulseCode>, start: int, byte: u8)
    requires
        forall|i: int| 0 <= i < 8 ==> codes[start + i] == bit_code(byte_bit(byte, i)),
    ensures
        bits_value(codes, start, 8) == byte,
{
    reveal_with_fuel(bits_value, 9);
    assert(codes[start + 0] == bit_code(byte_bit(byte, 0)));
    assert(codes[start + 1] == bit_code(byte_bit(byte, 1)));
    assert(codes[start + 2] == bit_code(byte_bit(byte, 2)));
    assert(codes[start + 3] == bit_code(byte_bit(byte, 3)));
    assert(codes[start + 4] == bit_code(byte_bit(byte, 4)));
    assert(codes[start + 5] == bit_code(byte_bit(byte, 5)));
    assert(codes[start + 6] == bit_code(byte_bit(byte, 6)));
    assert(codes[start + 7] == bit_code(byte_bit(byte, 7)));
}

fn decode_byte(packet: &Packet, start: usize) -> (byte: Option<u8>)
    requires
        start + 8 <= PACKET_SIZE,
    ensures
        byte is Some <==> forall|i: int|
            start <= i < start + 8 ==> code_bit(#[trigger] packet@[i]) is Some,
        byte matches Some(value) ==> value == bits_value(packet@, start as int, 8),
{
    let mut value: u8 = 0;
    let mut position: usize = 0;
    while position < 8
        invariant
            position <= 8,
            start + 8 <= PACKET_SIZE,
            value == bits_value(packet@, start as int, position as int),
            forall|i: int|
                start <= i < start + position ==> code_bit(#[trigger] packet@[i]) is Some,
        decreases 8 - position,
    {
        let bit = match decode_bit(packet[start + position]) {
            Some(bit) => bit,
            None => {
                return None;
            },
        };
        proof {
            lemma_bits_value_bound(packet@, start as int, position as nat);
            lemma_bits_value_bound(packet@, start as int, (position + 1) as nat);
            lemma2_to64();
            assert(pow2((position + 1) as nat) <= 256) by {
                if position < 7 {
                    vstd::arithmetic::power2::lemma_pow2_strictly_increases(
                        (position + 1) as nat,
                        8,
                    );
                }
            }
        }
        value = 2 * value + if bit {
            1
        } else {
            0
        };
        position += 1;
    }
    Some(value)
}

/// Reads the colour back from a packet; `None` if one of its codes is not
/// a data symbol.
pub fn decode_packet(packet: &Packet) -> (color: Option<Color>)
    ensures
        color == packet_color(packet@),
{
    let g = decode_byte(packet, 0);
    let r = decode_byte(packet, 8);
    let b = decode_byte(packet, 16);
    match (g, r, b) {
        (Some(g), Some(r), Some(b)) => {
            assert(all_data(packet@)) by {
                assert forall|i: int| 0 <= i < packet@.len() implies code_bit(
                    #[trigger] packet@[i],
                ) is Some by {
                    if i < 8 {
                    } else if i < 16 {
                    } else {
                    }
                }
            }
            Some(Color { r, g, b })
        },
        _ => None,
    }
}

/// A packet that was built from a colour decodes to that colour.
pub proof fn law_packet_round_trip(color: Color)
    ensures
        packet_color(packet_codes(color)) == Some(color),
{
    let codes = packet_codes(color);
    assert(all_data(codes));
    lemma_byte_round_trip(codes, 0, color.g);
    lemma_byte_round_trip(codes, 8, color.r);
    lemma_byte_round_trip(codes, 16, color.b);
}

/// Two colours with the same packet are the same colour.
pub proof fn law_packet_injective(first: Color, second: Color)
    requires
        packet_codes(first) == packet_codes(second),
    ensures
        first == second,
{
    law_packet_round_trip(first);
    law_packet_round_trip(second);
}

/// Every packet holds 24 codes, and each of them is a data symbol.
pub proof fn law_packet_shape(color: Color)
    ensures
        packet_codes(color).len() == PACKET_SIZE,
        all_data(packet_codes(color)),
{
}

} // verus!
