//! Frames: the buffer of pulse words that one transmission sends.

use vstd::prelude::*;
use crate::color::Color;
use crate::error::Error;
use crate::packet::{all_data, law_packet_round_trip, packet_codes, packet_color, Packet, PACKET_SIZE};
use crate::pulse::{code_bit, end_code, law_word_round_trip, pulse_word, word_code, PulseCode};

verus! {

/// LEDs that the frame buffer is sized for.
pub const MAX_LEDS: usize = 256;

/// Words in the frame buffer: a packet for each of `MAX_LEDS` LEDs.
pub const FRAME_CAPACITY: usize = 6144;

/// The first LED count that is refused. It lies one below `MAX_LEDS`, so
/// the last LED that the buffer has room for is never addressed.
pub const LED_LIMIT: usize = 255;

/// The words of a frame for `count` LEDs that all show the packet `codes`:
/// `count` copies of the packet, then the word that ends the transmission.
pub open spec fn frame_words(codes: Seq<PulseCode>, count: int) -> Seq<u32> {
    Seq::new(
        (count * PACKET_SIZE + 1) as nat,
        |i: int|
            if i < count * PACKET_SIZE {
                pulse_word(codes[i % (PACKET_SIZE as int)]) as u32
            } else {
                pulse_word(end_code()) as u32
            },
    )
}

/// The pulse codes that the frame `words` holds for the LED at `led`.
pub open spec fn led_codes(words: Seq<u32>, led: int) -> Seq<PulseCode> {
    Seq::new(PACKET_SIZE as nat, |i: int| word_code(words[led * PACKET_SIZE + i]))
}

/// A frame ready for transmission. Only its populated prefix is ever handed
/// out; the rest of the buffer stays inside.
#[derive(Debug)]
pub struct Frame {
    buffer: [u32; FRAME_CAPACITY],
    len: usize,
}

impl View for Frame {
    type V = Seq<u32>;

    closed spec fn view(&self) -> Seq<u32> {
        self.buffer@.subrange(0, self.len as int)
    }
}

impl Frame {
    #[verifier::type_invariant]
    spec fn populated(self) -> bool {
        self.len <= FRAME_CAPACITY
    }

    /// The number of words to transmit.
    pub fn len(&self) -> (len: usize)
        ensures
            len == self@.len(),
    {
        proof {
            use_type_invariant(self);
        }
        self.len
    }

    /// The words to transmit, in order.
    pub fn words(&self) -> (words: &[u32])
        ensures
            words@ == self@,
    {
        proof {
            use_type_invariant(self);
        }
        vstd::slice::slice_subrange(self.buffer.as_slice(), 0, self.len)
    }
}

fn packet_words(packet: &Packet) -> (words: [u32; 24])
    ensures
        forall|i: int| 0 <= i < PACKET_SIZE ==> words@[i] == pulse_word(packet@[i]),
{
    let mut words: [u32; 24] = [0u32;24];
    let mut i: usize = 0;
    while i < PACKET_SIZE
        invariant
            i <= PACKET_SIZE,
            forall|k: int| 0 <= k < i ==> words@[k] == pulse_word(packet@[k]),
        decreases PACKET_SIZE - i,
    {
        words[i] = packet[i].word();
        i += 1;
    }
    words
}

/// Assembles the frame that shows `packet` on `count` LEDs.
///
/// A `count` of `LED_LIMIT` or more is refused with `Error::TooManyLeds`;
/// every smaller count gives a frame of `count * 24 + 1` words.
pub fn build_frame(packet: &Packet, count: usize) -> (result: Result<Frame, Error>)
    ensures
        count >= LED_LIMIT <==> result is Err,
        result is Err ==> result == Err::<Frame, Error>(Error::TooManyLeds),
        result matches Ok(frame) ==> {
            &&& frame@ == frame_words(packet@, count as int)
            &&& frame@.len() == count * PACKET_SIZE + 1
            &&& frame@[count * PACKET_SIZE] == pulse_word(end_code())
        },
{
    if count >= MAX_LEDS - 1 {
        return Err(Error::TooManyLeds);
    }
    let words = packet_words(packet);
    let total: usize = count * PACKET_SIZE;
    let mut buffer: [u32; FRAME_CAPACITY] = [0u32;FRAME_CAPACITY];
    let mut i: usize = 0;
    while i < total
        invariant
            i <= total,
            total == count * PACKET_SIZE,
            total < FRAME_CAPACITY,
            forall|k: int| 0 <= k < PACKET_SIZE ==> words@[k] == pulse_word(packet@[k]),
            forall|k: int|
                0 <= k < i ==> buffer@[k] == pulse_word(packet@[k % (PACKET_SIZE as int)]),
        decreases total - i,
    {
        buffer[i] = words[i % PACKET_SIZE];
        i += 1;
    }
    buffer[total] = PulseCode::empty().word();
    let frame = Frame { buffer, len: total + 1 };
    assert(frame@ =~= frame_words(packet@, count as int));
    Ok(frame)
}

/// A frame holds a packet for each LED and one more word, and that last
/// word is the one that ends the transmission.
pub proof fn law_frame_shape(codes: Seq<PulseCode>, count: nat)
    ensures
        frame_words(codes, count as int).len() == count * PACKET_SIZE + 1,
        frame_words(codes, count as int)[count * PACKET_SIZE] == pulse_word(end_code()),
        word_code(frame_words(codes, count as int).last()) == end_code(),
{
}

/// In a frame of data symbols the end word stands at the end only: every
/// word before it has a duration in both phases, so the peripheral does not
/// stop early.
pub proof fn law_frame_ends_once(codes: Seq<PulseCode>, count: nat, index: int)
    requires
        codes.len() == PACKET_SIZE,
        all_data(codes),
        0 <= index < count * PACKET_SIZE,
    ensures
        word_code(frame_words(codes, count as int)[index]).high_ticks > 0,
        word_code(frame_words(codes, count as int)[index]).low_ticks > 0,
{
    let code = codes[index % (PACKET_SIZE as int)];
    assert(code_bit(code) is Some);
    law_word_round_trip(code);
}

/// Every LED's share of a frame decodes to the colour that the frame was
/// built from.
pub proof fn law_frame_round_trip(color: Color, count: nat, led: int)
    requires
        0 <= led < count,
    ensures
        packet_color(led_codes(frame_words(packet_codes(color), count as int), led)) == Some(
            color,
        ),
{
    let codes = packet_codes(color);
    let words = frame_words(codes, count as int);
    assert forall|i: int| 0 <= i < PACKET_SIZE implies #[trigger] led_codes(words, led)[i]
        == codes[i] by {
        let index = led * PACKET_SIZE + i;
        assert(0 <= index < count * PACKET_SIZE) by (nonlinear_arith)
            requires
                0 <= led < count,
                0 <= i < PACKET_SIZE,
                index == led * PACKET_SIZE + i,
        ;
        assert(index % (PACKET_SIZE as int) == i) by (nonlinear_arith)
            requires
                0 <= i < PACKET_SIZE,
                index == led * PACKET_SIZE + i,
                PACKET_SIZE == 24,
        ;
        law_word_round_trip(codes[i]);
    }
    assert(led_codes(words, led) =~= codes);
    law_packet_round_trip(color);
}

} // verus!
