use esp32_ws2812b::color::Color;
use esp32_ws2812b::driver::WS2812B;
use esp32_ws2812b::error::{Error, RmtError};
use esp32_ws2812b::fade::{FadeAction, FADE_DELAY_MS, FADE_STEPS, RAMP_STEPS};

/// What one run of the animation did.
struct Run {
    frames: Vec<Vec<u32>>,
    delays: Vec<u32>,
    result: Result<(), Error>,
}

/// Plays the animation against a channel that fails at the write numbered
/// `fail_at`, if there is one.
fn run(target: Color, count: usize, fail_at: Option<(usize, RmtError)>) -> Run {
    let driver = WS2812B::new(80);
    let mut frames = Vec::new();
    let mut delays = Vec::new();
    let mut action = driver.fade(target, count);
    loop {
        action = match action {
            FadeAction::Write(write) => {
                assert_eq!(write.step(), frames.len());
                frames.push(write.frame().words().to_vec());
                match fail_at {
                    Some((step, failure)) if step + 1 == frames.len() => {
                        write.complete(Err(failure))
                    }
                    _ => write.complete(Ok(())),
                }
            }
            FadeAction::Delay(delay) => {
                assert_eq!(delay.step() + 1, frames.len());
                delays.push(delay.millis());
                delay.elapsed()
            }
            FadeAction::Done => return Run { frames, delays, result: Ok(()) },
            FadeAction::Failed(error) => return Run { frames, delays, result: Err(error) },
        }
    }
}

/// The colours that the animation writes, by the plain loops: for blue,
/// green and red in turn, write, then set the channel to the next value of
/// 0..255 followed by 254..=0.
fn written_colors(target: Color) -> Vec<Color> {
    let mut colors = Vec::new();
    let mut color = target;
    for channel in 0..3 {
        for value in (0..255u8).chain((0..255u8).rev()) {
            colors.push(color);
            match channel {
                0 => color.b = value,
                1 => color.g = value,
                _ => color.r = value,
            }
        }
    }
    colors
}

#[test]
fn fade_runs_three_ramps_of_510_steps() {
    assert_eq!(RAMP_STEPS, 510);
    assert_eq!(FADE_STEPS, 3 * 510);
    let run = run(Color { r: 0, g: 0, b: 255 }, 1, None);
    assert_eq!(run.result, Ok(()));
    assert_eq!(run.frames.len(), 3 * 510);
    assert_eq!(run.delays.len(), 3 * 510);
    assert!(run.delays.iter().all(|millis| *millis == 5));
    assert!(run.frames.iter().all(|frame| frame.len() == 25));
}

#[test]
fn fade_waits_five_milliseconds() {
    assert_eq!(FADE_DELAY_MS, 5);
}

#[test]
fn fade_writes_the_colours_of_the_plain_loops() {
    let driver = WS2812B::new(80);
    for target in [
        Color { r: 0, g: 0, b: 255 },
        Color { r: 12, g: 34, b: 56 },
        Color { r: 255, g: 255, b: 255 },
        Color { r: 0, g: 0, b: 0 },
    ] {
        let run = run(target, 2, None);
        let colors = written_colors(target);
        assert_eq!(colors.len(), 1530);
        assert_eq!(run.frames.len(), colors.len());
        for (frame, color) in run.frames.iter().zip(colors) {
            assert_eq!(&frame[..], driver.write(color, 2).unwrap().words());
        }
    }
}

#[test]
fn fade_colours_at_chosen_steps() {
    let driver = WS2812B::new(80);
    let target = Color { r: 7, g: 8, b: 9 };
    let run = run(target, 1, None);
    let expect = |step: usize, color: Color| {
        assert_eq!(&run.frames[step][..], driver.write(color, 1).unwrap().words());
    };
    expect(0, Color { r: 7, g: 8, b: 9 });
    expect(1, Color { r: 7, g: 8, b: 0 });
    expect(2, Color { r: 7, g: 8, b: 1 });
    expect(255, Color { r: 7, g: 8, b: 254 });
    expect(256, Color { r: 7, g: 8, b: 254 });
    expect(257, Color { r: 7, g: 8, b: 253 });
    expect(509, Color { r: 7, g: 8, b: 1 });
    expect(510, Color { r: 7, g: 8, b: 0 });
    expect(511, Color { r: 7, g: 0, b: 0 });
    expect(765, Color { r: 7, g: 254, b: 0 });
    expect(1020, Color { r: 7, g: 0, b: 0 });
    expect(1021, Color { r: 0, g: 0, b: 0 });
    expect(1275, Color { r: 254, g: 0, b: 0 });
    expect(1276, Color { r: 254, g: 0, b: 0 });
    expect(1529, Color { r: 1, g: 0, b: 0 });
}

#[test]
fn fade_aborts_on_the_first_failure() {
    for step in [0usize, 1, 509, 510, 1000, 1529] {
        let run = run(Color { r: 0, g: 0, b: 255 }, 1, Some((step, RmtError::TransmissionError)));
        assert_eq!(run.result, Err(Error::RmtError(RmtError::TransmissionError)));
        assert_eq!(run.frames.len(), step + 1);
        assert_eq!(run.delays.len(), step);
    }
}

#[test]
fn fade_hands_on_the_failure_it_was_given() {
    let fourth = run(Color { r: 1, g: 2, b: 3 }, 4, Some((3, RmtError::EndMarkerMissing)));
    assert_eq!(fourth.result, Err(Error::RmtError(RmtError::EndMarkerMissing)));
    assert_eq!(fourth.frames.len(), 4);
    let first = run(Color { r: 1, g: 2, b: 3 }, 4, Some((0, RmtError::Overflow)));
    assert_eq!(first.result, Err(Error::RmtError(RmtError::Overflow)));
    assert_eq!(first.frames.len(), 1);
}

#[test]
fn fade_refuses_too_many_leds_before_any_write() {
    for count in [255usize, 256, 1000] {
        let run = run(Color { r: 0, g: 0, b: 255 }, count, None);
        assert_eq!(run.result, Err(Error::TooManyLeds));
        assert!(run.frames.is_empty());
        assert!(run.delays.is_empty());
    }
}

#[test]
fn fade_on_the_most_leds() {
    let run = run(Color { r: 0, g: 0, b: 255 }, 254, Some((2, RmtError::TransmissionError)));
    assert_eq!(run.frames.len(), 3);
    assert!(run.frames.iter().all(|frame| frame.len() == 6097));
}

#[test]
fn fade_first_action_is_the_write_of_the_target() {
    let driver = WS2812B::new(80);
    let target = Color { r: 0, g: 0, b: 255 };
    match driver.fade(target, 1) {
        FadeAction::Write(write) => {
            assert_eq!(write.step(), 0);
            assert_eq!(write.frame().words(), driver.write(target, 1).unwrap().words());
        }
        _ => panic!("the animation starts with a write"),
    }
}

#[test]
fn fade_of_the_named_blue() {
    let blue = smart_leds::colors::BLUE;
    let target = Color { r: blue.r, g: blue.g, b: blue.b };
    assert_eq!(target, Color { r: 0, g: 0, b: 255 });
    let run = run(target, 1, None);
    assert_eq!(run.result, Ok(()));
    assert_eq!(run.frames.len(), 1530);
    let driver = WS2812B::new(80);
    assert_eq!(&run.frames[0][..], driver.write(target, 1).unwrap().words());
    assert_eq!(&run.frames[255][..], driver.write(Color { r: 0, g: 0, b: 254 }, 1).unwrap().words());
}
