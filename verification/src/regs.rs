//! Register map of the PWM controller chip and the fixed-point scale used
//! throughout the crate.

use vstd::prelude::*;

verus! {

/// Steps per PWM period: the chip counts 0..4095 each cycle.
pub const RESOLUTION: u16 = 4096;

/// Address of the first mode register.
pub const MODE1_ADDR: u8 = 0;

/// Mode bit: oscillator stopped.
pub const MODE1_SLEEP: u8 = 0x10;

/// Mode bit: restart PWM after sleep.
pub const MODE1_RESTART: u8 = 0x80;

/// Mode bit: register auto-increment enabled.
pub const MODE1_AI: u8 = 0x20;

/// Address of the broadcast "all channels off" high register.
pub const ALL_OFF_H_ADDR: u8 = 0xfd;

/// Bit in the broadcast register that switches every channel off.
pub const ALL_OFF_H_ALL_OFF: u8 = 0x10;

/// Address of the oscillator prescale register.
pub const PRESCALE_ADDR: u8 = 0xfe;

/// Frequency of the chip's internal oscillator, in hertz.
pub const OSCILLATOR_FREQ_HZ: u64 = 25_000_000;

/// Fixed-point scale: micro-units per whole unit. A duty-cycle fraction of
/// one, an angle of one radian and a frequency of one hertz are each
/// `1_000_000` in this representation.
pub const UNIT: i64 = 1_000_000;

/// Milliseconds the chip needs to settle after a latch or oscillator write.
pub const SETTLE_MS: u32 = 5;

/// Address of the first register of a channel: four registers per channel,
/// laid out as on-low, on-high, off-low, off-high.
pub open spec fn spec_channel_base(channel: u8) -> int {
    6 + 4 * channel
}

/// First register address of `channel`.
pub fn channel_base(channel: u8) -> (r: u8)
    requires
        channel < 16,
    ensures
        r == spec_channel_base(channel),
{
    6 + 4 * channel
}

/// Mode byte that puts the chip to sleep without restarting: restart bit
/// cleared, sleep bit set.
pub open spec fn spec_sleep_mode(mode: u8) -> u8 {
    (mode & !MODE1_RESTART) | MODE1_SLEEP
}

/// Derive the sleeping mode byte from the current one.
pub fn sleep_mode(mode: u8) -> (r: u8)
    ensures
        r == spec_sleep_mode(mode),
{
    (mode & !MODE1_RESTART) | MODE1_SLEEP
}

} // verus!
