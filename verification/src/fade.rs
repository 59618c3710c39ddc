//! The fade animation: which colour is written at which step, and what the
//! owner of the channel has to do next.

use vstd::prelude::*;
use crate::color::Color;
use crate::error::{Error, RmtError};
use crate::frame::{build_frame, frame_words, Frame, LED_LIMIT};
use crate::packet::{build_packet, packet_codes};

verus! {

/// Writes that the ramp of one channel takes: 255 up and 255 down.
pub const RAMP_STEPS: usize = 510;

/// Writes of a whole animation: the ramps of three channels.
pub const FADE_STEPS: usize = 1530;

/// Milliseconds to wait after each write.
pub const FADE_DELAY_MS: u32 = 5;

/// The value that a ramp gives its channel after the write at place `place`
/// of the ramp: 0, 1, .. 254, then 254, 253, .. 0.
pub open spec fn ramp_value(place: int) -> int {
    if place < 255 {
        place
    } else {
        509 - place
    }
}

/// A colour with one channel replaced. The channels are numbered in the
/// order in which the animation ramps them: 0 is blue, 1 is green, 2 is red.
pub open spec fn with_channel(color: Color, channel: int, value: u8) -> Color {
    if channel == 0 {
        Color { b: value, ..color }
    } else if channel == 1 {
        Color { g: value, ..color }
    } else {
        Color { r: value, ..color }
    }
}

/// The colour that the write at `step` shows when the animation started
/// from `target`. The first write shows `target` itself; from then on the
/// channel in turn holds what its ramp last gave it, the channels before it
/// are down at zero and the channels after it are still those of `target`.
pub open spec fn fade_color(target: Color, step: int) -> Color {
    if step <= 0 {
        target
    } else {
        let channel = (step - 1) / (RAMP_STEPS as int);
        let value = ramp_value((step - 1) % (RAMP_STEPS as int)) as u8;
        if channel == 0 {
            Color { r: target.r, g: target.g, b: value }
        } else if channel == 1 {
            Color { r: target.r, g: value, b: 0 }
        } else {
            Color { r: value, g: 0, b: 0 }
        }
    }
}

/// Where an animation stands: the colour it started from, the number of
/// LEDs, and the number of writes that are done.
pub struct FadePoint {
    pub target: Color,
    pub count: usize,
    pub step: int,
}

#[derive(Clone, Copy, Debug)]
struct FadeState {
    target: Color,
    color: Color,
    count: usize,
    step: usize,
}

/// A frame of the animation that is to be transmitted.
#[derive(Debug)]
pub struct FadeWrite {
    frame: Frame,
    state: FadeState,
}

/// A pause of the animation that is to be waited out.
#[derive(Debug)]
pub struct FadeDelay {
    state: FadeState,
}

/// What the owner of the channel has to do next.
#[derive(Debug)]
pub enum FadeAction {
    /// Transmit the frame, then report how that went.
    Write(FadeWrite),
    /// Wait, then report that the time has passed.
    Delay(FadeDelay),
    /// The animation is over: every frame was sent.
    Done,
    /// The animation was given up with this error.
    Failed(Error),
}

/// What an animation from `target` on `count` LEDs does once `step` writes
/// and their pauses are behind it: it is over after `FADE_STEPS` writes,
/// it fails where the frame cannot be built, and else it asks for the write
/// of the frame that shows `fade_color(target, step)`.
pub open spec fn write_or_stop(action: FadeAction, target: Color, count: usize, step: int) -> bool {
    if step >= FADE_STEPS {
        action is Done
    } else if count >= LED_LIMIT {
        action matches FadeAction::Failed(error) && error == Error::TooManyLeds
    } else {
        action matches FadeAction::Write(write) && write@ == (FadePoint { target, count, step })
            && write.frame_view() == frame_words(
            packet_codes(fade_color(target, step)),
            count as int,
        )
    }
}

impl FadeState {
    spec fn wf(self) -> bool {
        &&& self.step <= FADE_STEPS
        &&& self.color == fade_color(self.target, self.step as int)
    }

    spec fn point(self) -> FadePoint {
        FadePoint { target: self.target, count: self.count, step: self.step as int }
    }

    fn action(self) -> (action: FadeAction)
        requires
            self.wf(),
        ensures
            write_or_stop(action, self.target, self.count, self.step as int),
    {
        if self.step >= FADE_STEPS {
            return FadeAction::Done;
        }
        let packet = build_packet(self.color);
        match build_frame(&packet, self.count) {
            Ok(frame) => FadeAction::Write(FadeWrite { frame, state: self }),
            Err(error) => FadeAction::Failed(error),
        }
    }

    fn ramped(self) -> (next: FadeState)
        requires
            self.wf(),
            self.step < FADE_STEPS,
        ensures
            next.wf(),
            next.target == self.target,
            next.count == self.count,
            next.step == self.step + 1,
    {
        let place = self.step % RAMP_STEPS;
        let value: u8 = if place < 255 {
            place as u8
        } else {
            (509 - place) as u8
        };
        let channel = self.step / RAMP_STEPS;
        let color = if channel == 0 {
            Color { r: self.color.r, g: self.color.g, b: value }
        } else if channel == 1 {
            Color { r: self.color.r, g: value, b: self.color.b }
        } else {
            Color { r: value, g: self.color.g, b: self.color.b }
        };
        FadeState { target: self.target, color, count: self.count, step: self.step + 1 }
    }
}

/// The first action of an animation from `target` on `count` LEDs.
pub fn first_action(target: Color, count: usize) -> (action: FadeAction)
    ensures
        write_or_stop(action, target, count, 0),
{
    let state = FadeState { target, color: target, count, step: 0 };
    state.action()
}

impl View for FadeWrite {
    type V = FadePoint;

    closed spec fn view(&self) -> FadePoint {
        self.state.point()
    }
}

impl FadeWrite {
    #[verifier::type_invariant]
    spec fn inv(self) -> bool {
        &&& self.state.wf()
        &&& self.state.step < FADE_STEPS
    }

    /// The words of the frame that is to be transmitted.
    pub closed spec fn frame_view(self) -> Seq<u32> {
        self.frame@
    }

    /// The frame to transmit.
    pub fn frame(&self) -> (frame: &Frame)
        ensures
            frame@ == self.frame_view(),
    {
        &self.frame
    }

    /// The number of writes that were done before this one.
    pub fn step(&self) -> (step: usize)
        ensures
            step == self@.step,
            step < FADE_STEPS,
    {
        proof {
            use_type_invariant(self);
        }
        self.state.step
    }

    /// Takes the outcome of the transmission. A failure of the peripheral
    /// ends the animation with that failure; after a success the pause is
    /// due.
    pub fn complete(self, outcome: Result<(), RmtError>) -> (action: FadeAction)
        ensures
            match outcome {
                Ok(_) => action matches FadeAction::Delay(delay) && delay@ == self@,
                Err(failure) => action matches FadeAction::Failed(error) && error
                    == Error::RmtError(failure),
            },
    {
        proof {
            use_type_invariant(&self);
        }
        match outcome {
            Ok(_) => FadeAction::Delay(FadeDelay { state: self.state }),
            Err(failure) => FadeAction::Failed(Error::from(failure)),
        }
    }
}

impl View for FadeDelay {
    type V = FadePoint;

    closed spec fn view(&self) -> FadePoint {
        self.state.point()
    }
}

impl FadeDelay {
    #[verifier::type_invariant]
    spec fn inv(self) -> bool {
        &&& self.state.wf()
        &&& self.state.step < FADE_STEPS
    }

    /// The time to wait, in milliseconds.
    pub fn millis(&self) -> (millis: u32)
        ensures
            millis == FADE_DELAY_MS,
    {
        FADE_DELAY_MS
    }

    /// The number of writes that were done before the one that this pause
    /// follows.
    pub fn step(&self) -> (step: usize)
        ensures
            step == self@.step,
            step < FADE_STEPS,
    {
        proof {
            use_type_invariant(self);
        }
        self.state.step
    }

    /// Takes the news that the time has passed: the next write is due, or
    /// the animation is over.
    pub fn elapsed(self) -> (action: FadeAction)
        ensures
            write_or_stop(action, self@.target, self@.count, self@.step + 1),
    {
        proof {
            use_type_invariant(&self);
        }
        self.state.ramped().action()
    }
}

/// A ramp starts and ends at zero, peaks at 254, reads the same from both
/// ends, and moves by at most one from a write to the next.
pub proof fn law_ramp_shape(place: int)
    requires
        0 <= place < RAMP_STEPS,
    ensures
        0 <= ramp_value(place) <= 254,
        ramp_value(place) == ramp_value(RAMP_STEPS - 1 - place),
        place + 1 < RAMP_STEPS ==> -1 <= ramp_value(place + 1) - ramp_value(place) <= 1,
        ramp_value(0) == 0,
        ramp_value(254) == 254,
        ramp_value(RAMP_STEPS - 1) == 0,
{
}

/// The first write shows the colour that the animation started from, and
/// each later write shows the colour of the write before it with one
/// channel replaced: the channel whose ramp is running gets the next value
/// of that ramp.
pub proof fn law_fade_step(target: Color, step: int)
    requires
        0 <= step < FADE_STEPS,
    ensures
        fade_color(target, 0) == target,
        fade_color(target, step + 1) == with_channel(
            fade_color(target, step),
            step / (RAMP_STEPS as int),
            ramp_value(step % (RAMP_STEPS as int)) as u8,
        ),
{
}

/// Once its ramp is over a channel stays at zero: the last write shows red
/// at one and the other channels dark, and the animation leaves every
/// channel at zero.
pub proof fn law_fade_ends_dark(target: Color, step: int)
    requires
        0 <= step <= FADE_STEPS,
    ensures
        step > RAMP_STEPS ==> fade_color(target, step).b == 0,
        step > 2 * RAMP_STEPS ==> fade_color(target, step).g == 0,
        fade_color(target, FADE_STEPS - 1) == (Color { r: 1, g: 0, b: 0 }),
        fade_color(target, FADE_STEPS as int) == (Color { r: 0, g: 0, b: 0 }),
{
}

} // verus!
