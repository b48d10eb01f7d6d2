use servo_pwm::bus::duty_cycle_message;
use servo_pwm::codec::off_step;
use servo_pwm::codec::word_from_bytes;

/// A register file standing in for the chip: writes land at the packet's
/// start address and auto-increment from there, as the chip does.
fn apply_write(regs: &mut [u8; 256], msg: &[u8]) {
    let base = msg[0] as usize;
    for (i, byte) in msg[1..].iter().enumerate() {
        regs[base + i] = *byte;
    }
}

fn read_regs(regs: &[u8; 256], addr: usize, n: usize) -> Vec<u8> {
    regs[addr..addr + n].to_vec()
}

#[test]
fn duty_cycle_packet_for_half_on_channel_zero() {
    // channel 0, fraction 0.5: off-step 2048, bytes [6, 0, 0, 0x00, 0x08]
    let msg = duty_cycle_message(0, 500_000);
    assert_eq!(msg, vec![6, 0, 0, 0x00, 0x08]);
}

#[test]
fn duty_cycle_packet_addresses_each_channel() {
    for channel in 0..16u8 {
        let msg = duty_cycle_message(channel, 250_000);
        assert_eq!(msg[0], 6 + 4 * channel);
        assert_eq!(&msg[1..3], &[0, 0]);
    }
}

#[test]
fn duty_cycle_packet_clamps_out_of_range_fractions() {
    assert_eq!(duty_cycle_message(3, 2_000_000), duty_cycle_message(3, 1_000_000));
    assert_eq!(duty_cycle_message(3, -44), duty_cycle_message(3, 0));
    assert_eq!(duty_cycle_message(3, i64::MAX), duty_cycle_message(3, 1_000_000));
    assert_eq!(duty_cycle_message(3, i64::MIN), duty_cycle_message(3, 0));
}

#[test]
fn duty_cycle_round_trip_through_registers() {
    for (channel, duty) in [(0u8, 0i64), (0, 500_000), (7, 333_333), (15, 1_000_000), (4, -9)] {
        let mut regs = [0u8; 256];
        let msg = duty_cycle_message(channel, duty);
        apply_write(&mut regs, &msg);
        let base = (6 + 4 * channel) as usize;
        let bytes = read_regs(&regs, base, 4);
        assert_eq!(&bytes[0..2], &[0, 0]);
        assert_eq!(word_from_bytes(bytes[2], bytes[3]), off_step(duty));
    }
}
