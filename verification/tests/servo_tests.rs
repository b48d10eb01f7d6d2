use servo_pwm::Servo;

#[test]
fn angle_maps_linearly_inside_the_band() {
    // center 0.30, radius 0.10, 0.10 duty cycle per radian, in micro-units
    let servo = Servo::new(300_000, 100_000, 100_000);
    assert_eq!(servo.get_dt_from_angle(0), 300_000);
    // 0.5 rad: 300_000 + 500_000 * 100_000 / 1_000_000 = 350_000
    assert_eq!(servo.get_dt_from_angle(500_000), 350_000);
    assert_eq!(servo.get_dt_from_angle(-500_000), 250_000);
}

#[test]
fn angle_clamps_to_both_band_ends() {
    let servo = Servo::new(300_000, 100_000, 100_000);
    // 5 rad maps to 800_000, clamped to the upper end of the band
    assert_eq!(servo.get_dt_from_angle(5_000_000), 400_000);
    // -5 rad maps to -200_000, clamped to the lower end of the band
    assert_eq!(servo.get_dt_from_angle(-5_000_000), 200_000);
    // extreme angles stay inside the band
    let lo = 300_000 - 100_000;
    let hi = 300_000 + 100_000;
    for angle in [i64::MIN, -1_000_000_000_000, 0, 1_000_000_000_000, i64::MAX] {
        let d = servo.get_dt_from_angle(angle);
        assert!(lo <= d && d <= hi);
    }
}

#[test]
fn zero_radius_pins_the_output_to_center() {
    let servo = Servo::new(250_000, 0, 700_000);
    assert_eq!(servo.get_dt_from_angle(3_000_000), 250_000);
    assert_eq!(servo.get_dt_from_angle(-3_000_000), 250_000);
}

#[test]
fn negative_scale_flips_the_direction() {
    let servo = Servo::new(500_000, 200_000, -100_000);
    assert_eq!(servo.get_dt_from_angle(1_000_000), 400_000);
    assert_eq!(servo.get_dt_from_angle(-1_000_000), 600_000);
}

#[test]
fn constructor_keeps_the_fields() {
    let servo = Servo::new(300_000, 100_000, 50_000);
    assert_eq!(servo.center, 300_000);
    assert_eq!(servo.limit_radius, 100_000);
    assert_eq!(servo.dc_per_rad, 50_000);
}
