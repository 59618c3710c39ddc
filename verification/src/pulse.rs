//! Pulse codes: the timing symbols of the single-wire protocol, and the
//! 32-bit words in which the pulse-generation peripheral takes them.

use vstd::prelude::*;

verus! {

/// Ticks for which the line is held high to send a logical one (800 ns at
/// 50 ns per tick).
pub const ONE_HIGH_TICKS: u16 = 16;

/// Ticks for which the line is held low after the high phase of a logical
/// one (450 ns at 50 ns per tick).
pub const ONE_LOW_TICKS: u16 = 9;

/// Ticks for which the line is held high to send a logical zero (400 ns at
/// 50 ns per tick).
pub const ZERO_HIGH_TICKS: u16 = 8;

/// Ticks for which the line is held low after the high phase of a logical
/// zero (850 ns at 50 ns per tick).
pub const ZERO_LOW_TICKS: u16 = 17;

/// The longest duration that one phase of a pulse word can hold: 15 bits.
pub const MAX_TICKS: u16 = 0x7fff;

/// An output level of the line.
#[derive(Clone, Copy, Debug, PartialEq, Eq, Structural)]
pub enum Level {
    Low,
    High,
}

/// One timing symbol: a level held for a number of ticks, then a second
/// level held for a number of ticks. A symbol whose durations are zero ends
/// a transmission.
#[derive(Clone, Copy, Debug, PartialEq, Eq, Structural)]
pub struct PulseCode {
    /// Level of the first phase.
    pub high_level: Level,
    /// Duration of the first phase.
    pub high_ticks: u16,
    /// Level of the second phase.
    pub low_level: Level,
    /// Duration of the second phase.
    pub low_ticks: u16,
}

/// The symbol of a logical one.
pub open spec fn one_code() -> PulseCode {
    PulseCode {
        high_level: Level::High,
        high_ticks: ONE_HIGH_TICKS,
        low_level: Level::Low,
        low_ticks: ONE_LOW_TICKS,
    }
}

/// The symbol of a logical zero.
pub open spec fn zero_code() -> PulseCode {
    PulseCode {
        high_level: Level::High,
        high_ticks: ZERO_HIGH_TICKS,
        low_level: Level::Low,
        low_ticks: ZERO_LOW_TICKS,
    }
}

/// The symbol that ends a transmission: both durations are zero.
pub open spec fn end_code() -> PulseCode {
    PulseCode { high_level: Level::Low, high_ticks: 0, low_level: Level::Low, low_ticks: 0 }
}

/// The symbol of a logical bit.
pub open spec fn bit_code(bit: bool) -> PulseCode {
    if bit {
        one_code()
    } else {
        zero_code()
    }
}

/// The logical bit that a symbol stands for, if it is one of the two data
/// symbols.
pub open spec fn code_bit(code: PulseCode) -> Option<bool> {
    if code == one_code() {
        Some(true)
    } else if code == zero_code() {
        Some(false)
    } else {
        None
    }
}

/// The 16 bits of one phase: the duration in the low 15 bits, the level
/// above them.
pub open spec fn phase_bits(level: Level, ticks: u16) -> int {
    (if level == Level::High {
        0x8000int
    } else {
        0int
    }) + ticks % 0x8000
}

/// The word in which the peripheral takes a symbol: the first phase in the
/// low half, the second phase in the high half.
pub open spec fn pulse_word(code: PulseCode) -> int {
    phase_bits(code.high_level, code.high_ticks) + 0x1_0000 * phase_bits(
        code.low_level,
        code.low_ticks,
    )
}

/// The symbol that a word holds.
pub open spec fn word_code(word: u32) -> PulseCode {
    PulseCode {
        high_level: if (word / 0x8000) % 2 == 1 {
            Level::High
        } else {
            Level::Low
        },
        high_ticks: (word % 0x8000) as u16,
        low_level: if word / 0x8000_0000 == 1 {
            Level::High
        } else {
            Level::Low
        },
        low_ticks: ((word / 0x1_0000) % 0x8000) as u16,
    }
}

/// The symbol of a logical one: high for 16 ticks, then low for 9.
pub fn encode_one() -> (code: PulseCode)
    ensures
        code == one_code(),
{
    PulseCode {
        high_level: Level::High,
        high_ticks: ONE_HIGH_TICKS,
        low_level: Level::Low,
        low_ticks: ONE_LOW_TICKS,
    }
}

/// The symbol of a logical zero: high for 8 ticks, then low for 17.
pub fn encode_zero() -> (code: PulseCode)
    ensures
        code == zero_code(),
{
    PulseCode {
        high_level: Level::High,
        high_ticks: ZERO_HIGH_TICKS,
        low_level: Level::Low,
        low_ticks: ZERO_LOW_TICKS,
    }
}

/// The symbol of `bit`.
pub fn encode_bit(bit: bool) -> (code: PulseCode)
    ensures
        code == bit_code(bit),
{
    if bit {
        encode_one()
    } else {
        encode_zero()
    }
}

/// The logical bit that `code` stands for; `None` for any symbol that is
/// neither the one nor the zero.
pub fn decode_bit(code: PulseCode) -> (bit: Option<bool>)
    ensures
        bit == code_bit(code),
{
    if code == encode_one() {
        Some(true)
    } else if code == encode_zero() {
        Some(false)
    } else {
        None
    }
}

fn pack_phase(level: Level, ticks: u16) -> (bits: u32)
    ensures
        bits == phase_bits(level, ticks),
        bits < 0x1_0000,
{
    let flag: u32 = match level {
        Level::High => 1,
        Level::Low => 0,
    };
    let wide: u32 = ticks as u32;
    assert(((flag << 15) | (wide & 0x7fff)) == flag * 0x8000 + wide % 0x8000) by (bit_vector)
        requires
            flag <= 1,
    ;
    (flag << 15) | (wide & 0x7fff)
}

impl PulseCode {
    /// The symbol that ends a transmission.
    pub fn empty() -> (code: PulseCode)
        ensures
            code == end_code(),
    {
        PulseCode { high_level: Level::Low, high_ticks: 0, low_level: Level::Low, low_ticks: 0 }
    }

    /// The word in which the peripheral takes this symbol. A duration above
    /// `MAX_TICKS` loses its top bit, as the word has no room for it.
    pub fn word(self) -> (word: u32)
        ensures
            word == pulse_word(self),
    {
        let first = pack_phase(self.high_level, self.high_ticks);
        let second = pack_phase(self.low_level, self.low_ticks);
        assert((first | (second << 16)) == first + 0x1_0000 * second) by (bit_vector)
            requires
                first < 0x1_0000,
                second < 0x1_0000,
        ;
        first | (second << 16)
    }

    /// The symbol that `word` holds.
    pub fn from_word(word: u32) -> (code: PulseCode)
        ensures
            code == word_code(word),
    {
        assert((word & 0x8000 != 0) <==> (word / 0x8000) % 2 == 1) by (bit_vector);
        assert((word & 0x8000_0000 != 0) <==> word / 0x8000_0000 == 1) by (bit_vector);
        assert(word & 0x7fff == word % 0x8000) by (bit_vector);
        assert((word >> 16) & 0x7fff == (word / 0x1_0000) % 0x8000) by (bit_vector);
        PulseCode {
            high_level: if word & 0x8000 != 0 {
                Level::High
            } else {
                Level::Low
            },
            high_ticks: (word & 0x7fff) as u16,
            low_level: if word & 0x8000_0000 != 0 {
                Level::High
            } else {
                Level::Low
            },
            low_ticks: ((word >> 16) & 0x7fff) as u16,
        }
    }
}

/// A logical one holds the line high for longer than a logical zero does,
/// and low for a shorter time; both symbols last the same 25 ticks. The
/// symbols are counts of ticks and do not depend on the clock that the
/// ticks are derived from.
pub proof fn law_one_outlasts_zero()
    ensures
        one_code().high_ticks > zero_code().high_ticks,
        one_code().low_ticks < zero_code().low_ticks,
        one_code().high_ticks + one_code().low_ticks == zero_code().high_ticks
            + zero_code().low_ticks,
        one_code().high_ticks + one_code().low_ticks == 25,
{
}

/// Encoding a bit and decoding the symbol gives the bit back; the end
/// symbol stands for no bit.
pub proof fn law_bit_round_trip(bit: bool)
    ensures
        code_bit(bit_code(bit)) == Some(bit),
        code_bit(end_code()) == None::<bool>,
{
}

/// A symbol whose durations fit in 15 bits is read back unchanged from its
/// word.
pub proof fn law_word_round_trip(code: PulseCode)
    requires
        code.high_ticks <= MAX_TICKS,
        code.low_ticks <= MAX_TICKS,
    ensures
        0 <= pulse_word(code) <= u32::MAX,
        word_code(pulse_word(code) as u32) == code,
{
}

/// Every word is the word of the symbol it holds.
pub proof fn law_word_of_code(word: u32)
    ensures
        pulse_word(word_code(word)) == word,
{
}

/// The words of the three symbols of the protocol.
pub proof fn law_protocol_words()
    ensures
        pulse_word(one_code()) == 0x0009_8010,
        pulse_word(zero_code()) == 0x0011_8008,
        pulse_word(end_code()) == 0,
{
}

} // verus!
