//! Model of the driver's traffic on the serial bus: one `BusOp` per
//! transaction or settle delay, and the fixed operation sequences (plans)
//! that each driver method must issue in order.

use vstd::prelude::*;

use crate::codec::get_two_bytes;
use crate::codec::off_step;
use crate::codec::spec_off_step;
use crate::regs::ALL_OFF_H_ADDR;
use crate::regs::ALL_OFF_H_ALL_OFF;
use crate::regs::MODE1_ADDR;
use crate::regs::MODE1_AI;
use crate::regs::MODE1_RESTART;
use crate::regs::MODE1_SLEEP;
use crate::regs::PRESCALE_ADDR;
use crate::regs::SETTLE_MS;
use crate::regs::channel_base;
use crate::regs::spec_channel_base;
use crate::regs::spec_sleep_mode;

verus! {

/// One step the driver issues on the bus: a write transaction with its
/// bytes, a read transaction with the bytes that came back, or a settle
/// delay in milliseconds. A transaction is logged when it is issued, whether
/// or not the peripheral acknowledged it.
pub enum BusOp {
    Write(Seq<u8>),
    Read(Seq<u8>),
    DelayMs(u32),
}

/// Why a bus operation failed: the taxonomy covers opening the bus, binding
/// the peripheral address, and write or read transactions.
#[derive(Clone, Copy, Debug, PartialEq, Eq, Structural)]
pub enum BusError {
    Open,
    Bind,
    Write,
    Read,
}

/// A two-byte register write: register address, then its new value.
pub open spec fn write_reg_op(addr: u8, value: u8) -> BusOp {
    BusOp::Write(seq![addr, value])
}

/// The software-reset transaction: restart bit written to the mode register.
pub open spec fn reset_ops() -> Seq<BusOp> {
    seq![write_reg_op(MODE1_ADDR, MODE1_RESTART)]
}

/// The mode-configuration transaction: restart and auto-increment bits set.
pub open spec fn mode_ops() -> Seq<BusOp> {
    seq![write_reg_op(MODE1_ADDR, MODE1_RESTART | MODE1_AI)]
}

/// A register read: the one-byte address write, then the read transaction
/// that returned `bytes`.
pub open spec fn read_reg_ops(addr: u8, bytes: Seq<u8>) -> Seq<BusOp> {
    seq![BusOp::Write(seq![addr]), BusOp::Read(bytes)]
}

/// The prescale-programming sequence, given the mode byte `old_mode` the
/// chip reported and the prescale value `p`: read the mode register, write
/// the sleeping mode byte, write the prescale, restore the old mode byte,
/// then wait for the oscillator to restart. The order is the contract.
pub open spec fn prescale_ops(old_mode: u8, p: u8) -> Seq<BusOp> {
    read_reg_ops(MODE1_ADDR, seq![old_mode]) + seq![
        write_reg_op(MODE1_ADDR, spec_sleep_mode(old_mode)),
        write_reg_op(PRESCALE_ADDR, p),
        write_reg_op(MODE1_ADDR, old_mode),
        BusOp::DelayMs(SETTLE_MS),
    ]
}

/// The full initialization sequence: reset, prescale programming, mode
/// configuration.
pub open spec fn init_ops(old_mode: u8, p: u8) -> Seq<BusOp> {
    reset_ops() + prescale_ops(old_mode, p) + mode_ops()
}

/// The duty-cycle write for a channel: one five-byte packet starting at the
/// channel's base register: on-low = 0, on-high = 0, then the off-step's
/// low and high bytes.
pub open spec fn duty_message(channel: u8, step: int) -> Seq<u8> {
    seq![
        spec_channel_base(channel) as u8,
        0u8,
        0u8,
        (step % 256) as u8,
        (step / 256) as u8,
    ]
}

/// The bus traffic of a duty-cycle set: a single write of the channel's
/// packet, with the off-step computed from the clamped fraction.
pub open spec fn duty_ops(channel: u8, duty: int) -> Seq<BusOp> {
    seq![BusOp::Write(duty_message(channel, spec_off_step(duty)))]
}

/// Build the five-byte duty-cycle packet for a channel: the channel's base
/// register, zero on-time bytes, and the off-step of the clamped fraction
/// split into its low and high bytes.
pub fn duty_cycle_message(channel: u8, duty_cycle: i64) -> (msg: Vec<u8>)
    requires
        channel < 16,
    ensures
        msg@ == duty_message(channel, spec_off_step(duty_cycle as int)),
{
    let register = channel_base(channel);
    let stop_step: u16 = off_step(duty_cycle);
    let stop_step_bytes = get_two_bytes(stop_step);
    let msg: Vec<u8> = vec![register, 0x0, 0x0, stop_step_bytes.low, stop_step_bytes.high];
    proof {
        assert(msg@ =~= duty_message(channel, spec_off_step(duty_cycle as int)));
    }
    msg
}

/// The all-channels-off sequence: the broadcast off write, then the settle
/// delay. The write comes first; the delay elapses before return.
pub open spec fn all_off_ops() -> Seq<BusOp> {
    seq![write_reg_op(ALL_OFF_H_ADDR, ALL_OFF_H_ALL_OFF), BusOp::DelayMs(SETTLE_MS)]
}

/// The sleep sequence, given the mode byte `old_mode` the chip reported:
/// read the mode register, write it back with the sleep bit set, then the
/// settle delay.
pub open spec fn sleep_ops(old_mode: u8) -> Seq<BusOp> {
    read_reg_ops(MODE1_ADDR, seq![old_mode]) + seq![
        write_reg_op(MODE1_ADDR, old_mode | MODE1_SLEEP),
        BusOp::DelayMs(SETTLE_MS),
    ]
}

} // verus!
