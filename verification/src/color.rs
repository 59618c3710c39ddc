//! Colours and brightness scaling.

use vstd::prelude::*;

verus! {

/// One LED colour: three 8-bit channels.
#[derive(Clone, Copy, Debug, PartialEq, Eq, Structural)]
pub struct Color {
    pub r: u8,
    pub g: u8,
    pub b: u8,
}

/// A channel value dimmed by `brightness`: `channel * (brightness + 1) / 256`,
/// rounded toward zero.
pub open spec fn scaled_channel(channel: u8, brightness: u8) -> int {
    channel * (brightness + 1) / 256
}

/// A colour with each of its channels dimmed by `brightness`.
pub open spec fn scaled_color(color: Color, brightness: u8) -> Color {
    Color {
        r: scaled_channel(color.r, brightness) as u8,
        g: scaled_channel(color.g, brightness) as u8,
        b: scaled_channel(color.b, brightness) as u8,
    }
}

/// A dimmed channel never exceeds the channel it came from, so it is a
/// channel value again.
pub proof fn lemma_scaled_channel_bounds(channel: u8, brightness: u8)
    ensures
        0 <= scaled_channel(channel, brightness) <= channel,
{
    assert(0 <= channel * (brightness + 1) <= channel * 256) by (nonlinear_arith)
        requires
            0 <= channel,
            0 <= brightness < 256,
    ;
}

/// Dims one channel value.
pub fn scale_channel(channel: u8, brightness: u8) -> (out: u8)
    ensures
        out == scaled_channel(channel, brightness),
        out <= channel,
{
    proof {
        lemma_scaled_channel_bounds(channel, brightness);
        assert(channel * (brightness + 1) <= 255 * 256) by (nonlinear_arith)
            requires
                channel <= 255,
                brightness <= 255,
        ;
    }
    let wide: u16 = channel as u16 * (brightness as u16 + 1);
    (wide / 256) as u8
}

impl Color {
    /// This colour dimmed by `brightness`, channel by channel.
    pub fn scaled(self, brightness: u8) -> (out: Color)
        ensures
            out == scaled_color(self, brightness),
            out.r <= self.r,
            out.g <= self.g,
            out.b <= self.b,
    {
        Color {
            r: scale_channel(self.r, brightness),
            g: scale_channel(self.g, brightness),
            b: scale_channel(self.b, brightness),
        }
    }
}

/// Full brightness leaves a colour as it is, and brightness zero turns every
/// colour black: the factors are 256/256 and 1/256, and the quotient is
/// rounded toward zero.
pub proof fn law_brightness_extremes(color: Color)
    ensures
        scaled_color(color, 255) == color,
        scaled_color(color, 0) == (Color { r: 0, g: 0, b: 0 }),
{
}

/// Dimming is monotone in the brightness: a higher brightness never gives a
/// darker channel.
pub proof fn law_brightness_monotone(channel: u8, low: u8, high: u8)
    requires
        low <= high,
    ensures
        scaled_channel(channel, low) <= scaled_channel(channel, high),
{
    assert(channel * (low + 1) <= channel * (high + 1)) by (nonlinear_arith)
        requires
            0 <= channel,
            low <= high,
    ;
}

} // verus!
