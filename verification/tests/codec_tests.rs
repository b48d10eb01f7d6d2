use servo_pwm::codec::clamp_duty;
use servo_pwm::codec::off_step;
use servo_pwm::codec::prescale_from_freq;
use servo_pwm::codec::word_from_bytes;
use servo_pwm::get_two_bytes;

#[test]
fn two_bytes_split() {
    let t = get_two_bytes(0x0800);
    assert_eq!(t.low, 0x00);
    assert_eq!(t.high, 0x08);
    let t = get_two_bytes(0x0ABC);
    assert_eq!(t.low, 0xBC);
    assert_eq!(t.high, 0x0A);
    let t = get_two_bytes(0);
    assert_eq!(t.low, 0);
    assert_eq!(t.high, 0);
    let t = get_two_bytes(0xFFFF);
    assert_eq!(t.low, 0xFF);
    assert_eq!(t.high, 0xFF);
}

#[test]
fn two_bytes_round_trip() {
    for word in [0u16, 1, 255, 256, 2048, 4095, 4096, 0xFFFF] {
        let t = get_two_bytes(word);
        assert_eq!(word_from_bytes(t.low, t.high), word);
    }
}

#[test]
fn clamp_pulls_out_of_range_fractions_to_boundaries() {
    assert_eq!(clamp_duty(-1), 0);
    assert_eq!(clamp_duty(i64::MIN), 0);
    assert_eq!(clamp_duty(1_000_001), 1_000_000);
    assert_eq!(clamp_duty(i64::MAX), 1_000_000);
    assert_eq!(clamp_duty(0), 0);
    assert_eq!(clamp_duty(1_000_000), 1_000_000);
    assert_eq!(clamp_duty(123_456), 123_456);
}

#[test]
fn off_step_uses_clamped_boundary_values() {
    assert_eq!(off_step(-5), off_step(0));
    assert_eq!(off_step(i64::MIN), 0);
    assert_eq!(off_step(2_000_000), off_step(1_000_000));
    assert_eq!(off_step(i64::MAX), 4096);
}

#[test]
fn off_step_exact_values() {
    assert_eq!(off_step(0), 0);
    assert_eq!(off_step(500_000), 2048);
    assert_eq!(off_step(1_000_000), 4096);
    // 4096 * 250_000 / 1_000_000 = 1024 exactly
    assert_eq!(off_step(250_000), 1024);
    // rounding: 4096 * 100 + 500_000 = 909_600, / 1_000_000 rounds down to 0
    assert_eq!(off_step(100), 0);
    // 4096 * 125 = 512_000; plus 500_000 crosses 1_000_000: rounds up to 1
    assert_eq!(off_step(125), 1);
}

#[test]
fn prescale_reference_scenario() {
    // 50 Hz at a 25 MHz oscillator and 4096 steps: round(25e6/(4096*50) - 1)
    assert_eq!(prescale_from_freq(50_000_000), 121);
}

#[test]
fn prescale_saturates_at_register_bounds() {
    // Very high target frequency: the quotient falls below one, clamped to 0.
    assert_eq!(prescale_from_freq(u64::MAX), 0);
    // Very low target frequency: the quotient exceeds 255, clamped to 255.
    assert_eq!(prescale_from_freq(1), 255);
}
