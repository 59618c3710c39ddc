//! Driver logic for WS2812B addressable RGB LEDs: colours are turned into
//! bit-accurate pulse codes, pulse codes into frames, and frames are handed
//! to whoever owns the pulse-generation peripheral.

pub mod color;
pub mod driver;
pub mod error;
pub mod fade;
pub mod frame;
pub mod packet;
pub mod pulse;

pub use color::Color;
pub use driver::WS2812B;
pub use error::{Error, RmtError};
pub use fade::{FadeAction, FadeDelay, FadeWrite};
pub use frame::Frame;
pub use packet::Packet;
pub use pulse::{Level, PulseCode};
