//! Driver for a 16-channel, 12-bit PWM controller chip on a two-wire serial
//! bus, with a small servo-geometry layer on top.
//!
//! Duty cycles, angles and frequencies are fixed-point integers in
//! micro-units: `1_000_000` stands for a duty-cycle fraction of one, an angle
//! of one radian, or one hertz.

pub mod bus;
pub mod chip;
pub mod codec;
pub mod driver;
pub mod regs;
pub mod servo;

pub use bus::BusError;
pub use codec::get_two_bytes;
pub use codec::TwoBytes;
pub use driver::ServoDriver;
pub use servo::Servo;
