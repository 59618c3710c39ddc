//! The driver: clock configuration, brightness, and the frames to send.

use vstd::prelude::*;
use crate::color::{scaled_color, Color};
use crate::error::Error;
use crate::fade::{first_action, write_or_stop, FadeAction};
use crate::frame::{build_frame, frame_words, Frame, LED_LIMIT};
use crate::packet::{build_packet, packet_codes};
use crate::pulse::Level;

verus! {

/// The clock divider that gives the channel its tick: `freq_mhz * 5 / 100`,
/// kept to the eight bits of the divider register.
pub open spec fn tick_divider(freq_mhz: u32) -> int {
    (freq_mhz * 5 / 100) % 256
}

/// A WS2812B driver. It decides what is sent; the owner of the peripheral
/// channel sends it.
#[derive(Clone, Copy, Debug, PartialEq, Eq, Structural)]
pub struct WS2812B {
    clk_divider: u8,
}

impl WS2812B {
    /// The clock divider that this driver asks of its channel.
    pub closed spec fn divider(self) -> int {
        self.clk_divider as int
    }

    /// A driver for a peripheral that is clocked at `freq_mhz` MHz.
    pub fn new(freq_mhz: u32) -> (driver: WS2812B)
        ensures
            driver.divider() == tick_divider(freq_mhz),
    {
        let ticks: u64 = (freq_mhz as u64 * 5) / 100;
        WS2812B { clk_divider: (ticks % 256) as u8 }
    }

    /// The clock divider to configure the channel with.
    pub fn clk_divider(&self) -> (divider: u8)
        ensures
            divider == self.divider(),
    {
        self.clk_divider
    }

    /// The level at which the output pin is driven before the first frame.
    pub fn output_level(&self) -> (level: Level)
        ensures
            level == Level::High,
    {
        Level::High
    }

    /// The frame that shows `color` on `count` LEDs.
    ///
    /// A `count` of `LED_LIMIT` or more is refused with
    /// `Error::TooManyLeds`.
    pub fn write(&self, color: Color, count: usize) -> (result: Result<Frame, Error>)
        ensures
            count >= LED_LIMIT <==> result is Err,
            result is Err ==> result == Err::<Frame, Error>(Error::TooManyLeds),
            result matches Ok(frame) ==> frame@ == frame_words(packet_codes(color), count as int),
    {
        if count >= LED_LIMIT {
            return Err(Error::TooManyLeds);
        }
        let packet = build_packet(color);
        build_frame(&packet, count)
    }

    /// The frame that shows `color`, dimmed by `brightness`, on `count`
    /// LEDs.
    ///
    /// A `count` of `LED_LIMIT` or more is refused with
    /// `Error::TooManyLeds`.
    pub fn send(&self, color: Color, brightness: u8, count: usize) -> (result: Result<
        Frame,
        Error,
    >)
        ensures
            count >= LED_LIMIT <==> result is Err,
            result is Err ==> result == Err::<Frame, Error>(Error::TooManyLeds),
            result matches Ok(frame) ==> frame@ == frame_words(
                packet_codes(scaled_color(color, brightness)),
                count as int,
            ),
    {
        self.write(color.scaled(brightness), count)
    }

    /// Starts the fade animation from `color` on `count` LEDs and says what
    /// to do first.
    pub fn fade(&self, color: Color, count: usize) -> (action: FadeAction)
        ensures
            write_or_stop(action, color, count, 0),
    {
        first_action(color, count)
    }
}

/// With a clock that is a multiple of 20 MHz, and a divider that fits its
/// register, one tick lasts 50 ns: `divider / freq_mhz` microseconds.
pub proof fn law_tick_is_fifty_nanoseconds(freq_mhz: u32)
    requires
        freq_mhz % 20 == 0,
        freq_mhz <= 5100,
    ensures
        tick_divider(freq_mhz) * 1000 == 50 * freq_mhz,
{
}

} // verus!
