//! Pure byte-level encoding: splitting step counts into register byte pairs,
//! clamping duty-cycle fractions, and computing off-steps and prescale values.

use vstd::prelude::*;

use crate::regs::RESOLUTION;
use crate::regs::UNIT;

verus! {

/// A 16-bit word split into the low/high byte pair the chip's two-register
/// layout expects.
pub struct TwoBytes {
    pub low: u8,
    pub high: u8,
}

/// The word a low/high register byte pair stands for.
pub open spec fn word_of(low: u8, high: u8) -> int {
    low + 256 * high
}

/// Split a word into its low and high register bytes.
pub fn get_two_bytes(word: u16) -> (r: TwoBytes)
    ensures
        r.low == word % 256,
        r.high == word / 256,
        word_of(r.low, r.high) == word,
{
    let low = (word & 0xFF) as u8;
    let high = ((word & 0xFF00) >> 8) as u8;
    proof {
        assert((word & 0xFF) == word % 256 && ((word & 0xFF00) >> 8) == word / 256)
            by (bit_vector);
    }
    TwoBytes { low, high }
}

/// Reassemble a word from its low and high register bytes.
pub fn word_from_bytes(low: u8, high: u8) -> (r: u16)
    ensures
        r == word_of(low, high),
{
    low as u16 + 256 * (high as u16)
}

/// A duty-cycle fraction clamped to [0, 1]: values outside are pulled to the
/// nearest boundary, never rejected.
pub open spec fn spec_clamp_duty(duty: int) -> int {
    if duty < 0 {
        0
    } else if duty > UNIT {
        UNIT as int
    } else {
        duty
    }
}

/// Clamp a duty-cycle fraction (in micro-units) to [0, 1].
pub fn clamp_duty(duty_cycle: i64) -> (r: i64)
    ensures
        r == spec_clamp_duty(duty_cycle as int),
        0 <= r <= UNIT,
{
    if duty_cycle < 0 {
        0
    } else if duty_cycle > UNIT {
        UNIT
    } else {
        duty_cycle
    }
}

/// The step at which the channel output turns off: the clamped duty-cycle
/// fraction of the chip's resolution, rounded to the nearest step.
pub open spec fn spec_off_step(duty: int) -> int {
    (RESOLUTION * spec_clamp_duty(duty) + UNIT / 2) / (UNIT as int)
}

/// Compute the off-step for a duty-cycle fraction given in micro-units.
pub fn off_step(duty_cycle: i64) -> (r: u16)
    ensures
        r == spec_off_step(duty_cycle as int),
        r <= RESOLUTION,
{
    let d = clamp_duty(duty_cycle);
    proof {
        assert(RESOLUTION == 4096 && UNIT == 1000000);
        assert(4096 * (d as u64) <= 4096000000u64);
    }
    let num: u64 = (RESOLUTION as u64) * (d as u64) + (UNIT as u64) / 2;
    proof {
        assert(num / 1000000 <= 4096) by {
            assert(num <= 4096500000);
        };
    }
    (num / (UNIT as u64)) as u16
}

/// The prescale value for a target PWM frequency given in micro-hertz:
/// `oscillator / (resolution * frequency) - 1`, rounded to the nearest
/// integer, pulled into the 8-bit register range. With the frequency as
/// `f / 1_000_000` hertz, the quotient is `25e6 * 1e6 / (4096 * f)`.
pub open spec fn spec_prescale(freq_micros: u64) -> u8 {
    let num = 25_000_000_000_000int;
    let den = 4096 * (freq_micros as int);
    let rounded = (num + den / 2) / den;
    if rounded < 1 {
        0u8
    } else if rounded - 1 > 255 {
        255u8
    } else {
        (rounded - 1) as u8
    }
}

/// Compute the prescale register value for a PWM frequency in micro-hertz.
pub fn prescale_from_freq(freq_micros: u64) -> (p: u8)
    requires
        1 <= freq_micros,
    ensures
        p == spec_prescale(freq_micros),
{
    let num: u128 = 25_000_000_000_000;
    let den: u128 = 4096 * (freq_micros as u128);
    let rounded: u128 = (num + den / 2) / den;
    if rounded < 1 {
        0
    } else if rounded > 256 {
        255
    } else {
        (rounded - 1) as u8
    }
}

} // verus!
