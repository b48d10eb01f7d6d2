//! Model of the chip's register file under auto-increment writes, and the
//! laws the encoding obeys: the duty-cycle round trip, boundary clamping as
//! seen in the register bytes, and write-before-delay ordering.

use vstd::prelude::*;

use crate::bus::BusOp;
use crate::bus::all_off_ops;
use crate::bus::duty_message;
use crate::bus::sleep_ops;
use crate::codec::spec_clamp_duty;
use crate::codec::spec_off_step;
use crate::codec::word_of;
use crate::regs::RESOLUTION;
use crate::regs::UNIT;
use crate::regs::spec_channel_base;

verus! {

/// The register file after a write transaction `msg` is applied with
/// auto-increment: `msg[0]` is the start address, the remaining bytes land
/// at successive addresses.
pub open spec fn apply_write(regs: Seq<u8>, msg: Seq<u8>) -> Seq<u8> {
    Seq::new(
        regs.len(),
        |i: int|
            if msg.len() >= 1 && msg[0] <= i < msg[0] + msg.len() - 1 {
                msg[i - msg[0] + 1]
            } else {
                regs[i]
            },
    )
}

/// The bytes an auto-increment read of `n` registers starting at `addr`
/// returns.
pub open spec fn read_regs(regs: Seq<u8>, addr: int, n: int) -> Seq<u8> {
    regs.subrange(addr, addr + n)
}

/// Round trip: after a channel's duty-cycle packet is applied to the
/// register file, reading the channel's four registers back gives bytes
/// whose off-low/off-high pair decodes to the very step that was written.
pub proof fn lemma_duty_round_trip(regs: Seq<u8>, channel: u8, duty: int)
    requires
        regs.len() == 256,
        channel < 16,
    ensures
        ({
            let step = spec_off_step(duty);
            let after = apply_write(regs, duty_message(channel, step));
            let bytes = read_regs(after, spec_channel_base(channel), 4);
            word_of(bytes[2], bytes[3]) == step
        }),
{
    let step = spec_off_step(duty);
    let base = spec_channel_base(channel);
    let msg = duty_message(channel, step);
    let after = apply_write(regs, msg);
    let bytes = read_regs(after, base, 4);
    assert(0 <= spec_clamp_duty(duty) <= UNIT);
    assert(0 <= step <= RESOLUTION) by {
        assert(RESOLUTION * spec_clamp_duty(duty) + UNIT / 2 <= 4096500000);
    };
    assert(bytes[2] == msg[3] && bytes[3] == msg[4]);
    assert(word_of((step % 256) as u8, (step / 256) as u8) == step) by {
        vstd::arithmetic::div_mod::lemma_fundamental_div_mod(step, 256);
    };
}

/// Clamping, seen in the register bytes: a fraction above one produces the
/// same duty-cycle packet as exactly one, and a fraction below zero the same
/// packet as exactly zero.
pub proof fn lemma_duty_message_clamped(channel: u8, duty: int)
    ensures
        duty > UNIT ==> duty_message(channel, spec_off_step(duty))
            == duty_message(channel, spec_off_step(UNIT as int)),
        duty < 0 ==> duty_message(channel, spec_off_step(duty))
            == duty_message(channel, spec_off_step(0)),
{
}

/// The broadcast-off and sleep sequences issue every write before the settle
/// delay, and the delay is the last step before the function returns.
pub proof fn lemma_write_before_delay(old_mode: u8)
    ensures
        all_off_ops().last() is DelayMs,
        forall|i: int| 0 <= i < all_off_ops().len() - 1 ==> all_off_ops()[i] is Write,
        sleep_ops(old_mode).last() is DelayMs,
        forall|i: int|
            0 <= i < sleep_ops(old_mode).len() - 1
                ==> !(sleep_ops(old_mode)[i] is DelayMs),
{
    assert forall|i: int| 0 <= i < all_off_ops().len() - 1 implies all_off_ops()[i] is Write by {
        assert(i == 0);
    }
    assert forall|i: int|
        0 <= i < sleep_ops(old_mode).len() - 1 implies !(sleep_ops(old_mode)[i] is DelayMs) by {
        assert(sleep_ops(old_mode)[0] is Write);
        assert(sleep_ops(old_mode)[1] is Read);
        assert(sleep_ops(old_mode)[2] is Write);
    }
}

} // verus!
