//! The chip driver: owns the bus handle and issues the register protocol.
//! Every public method's contract pins the exact sequence of bus operations
//! it appends to the driver's transaction log.

use vstd::prelude::*;

use crate::bus::BusError;
use crate::bus::BusOp;
use crate::bus::all_off_ops;
use crate::bus::duty_cycle_message;
use crate::bus::duty_ops;
use crate::bus::init_ops;
use crate::bus::mode_ops;
use crate::bus::prescale_ops;
use crate::bus::read_reg_ops;
use crate::bus::reset_ops;
use crate::bus::sleep_ops;
use crate::codec::prescale_from_freq;
use crate::codec::spec_prescale;
use crate::regs::ALL_OFF_H_ADDR;
use crate::regs::ALL_OFF_H_ALL_OFF;
use crate::regs::MODE1_ADDR;
use crate::regs::MODE1_AI;
use crate::regs::MODE1_RESTART;
use crate::regs::MODE1_SLEEP;
use crate::regs::PRESCALE_ADDR;
use crate::regs::SETTLE_MS;
use crate::regs::sleep_mode;

verus! {

#[verifier::external_type_specification]
#[verifier::external_body]
pub struct ExI2c(rppal::i2c::I2c);

#[verifier::external_type_specification]
#[verifier::external_body]
pub struct ExI2cError(rppal::i2c::Error);

/// The driver of one PWM controller chip. It exclusively owns the bus
/// handle; its view is the log of every bus operation issued so far, oldest
/// first.
pub struct ServoDriver {
    i2c_port: rppal::i2c::I2c,
    log: Ghost<Seq<BusOp>>,
}

impl View for ServoDriver {
    type V = Seq<BusOp>;

    closed spec fn view(&self) -> Seq<BusOp> {
        self.log@
    }
}

/// Relies on rppal::i2c::I2c::new: opens the bus device of the default bus.
#[verifier::external_body]
fn open_bus() -> (r: Result<rppal::i2c::I2c, rppal::i2c::Error>) {
    rppal::i2c::I2c::new()
}

/// Relies on rppal::i2c::I2c::set_slave_address: binds the peripheral
/// address for all following transactions.
#[verifier::external_body]
fn bind_address(i2c: &mut rppal::i2c::I2c, addr: u16) -> (r: Result<
    (),
    rppal::i2c::Error,
>) {
    i2c.set_slave_address(addr)
}

impl ServoDriver {
    /// Relies on rppal::i2c::I2c::write: sends the bytes of `msg` to the
    /// bound peripheral in one bus transaction.
    #[verifier::external_body]
    fn bus_write(&mut self, msg: &Vec<u8>) -> (r: Result<usize, rppal::i2c::Error>)
        ensures
            final(self)@ == old(self)@.push(BusOp::Write(msg@)),
    {
        self.i2c_port.write(msg.as_slice())
    }

    /// Relies on rppal::i2c::I2c::read: fills `buf` with bytes received from
    /// the bound peripheral in one bus transaction; the buffer keeps its
    /// length, its contents are whatever the peripheral sent.
    #[verifier::external_body]
    fn bus_read(&mut self, buf: &mut Vec<u8>) -> (r: Result<usize, rppal::i2c::Error>)
        ensures
            final(buf)@.len() == old(buf)@.len(),
            final(self)@ == old(self)@.push(BusOp::Read(final(buf)@)),
    {
        self.i2c_port.read(buf.as_mut_slice())
    }

    /// Relies on rppal::hal::Delay, whose embedded_hal::delay::DelayNs
    /// implementation blocks the calling thread for the given number of
    /// milliseconds.
    #[verifier::external_body]
    fn settle_delay(&mut self, ms: u32)
        ensures
            final(self)@ == old(self)@.push(BusOp::DelayMs(ms)),
    {
        let mut d = rppal::hal::Delay::new();
        embedded_hal::delay::DelayNs::delay_ms(&mut d, ms)
    }

    /// Open the bus, bind the peripheral address, and run the full
    /// initialization sequence: software reset, prescale programming for
    /// `freq_micros` (the PWM frequency in micro-hertz), then mode
    /// configuration with restart and auto-increment set.
    pub fn new(addr: u16, freq_micros: u64) -> (r: Result<ServoDriver, BusError>)
        requires
            1 <= freq_micros,
        ensures
            r matches Ok(d) ==> exists|m: u8|
                d@ == init_ops(m, spec_prescale(freq_micros)),
            r matches Err(e) ==> e == BusError::Open || e == BusError::Bind
                || e == BusError::Write || e == BusError::Read,
    {
        let mut i2c = match open_bus() {
            Ok(i) => i,
            Err(_) => { return Err(BusError::Open); },
        };
        match bind_address(&mut i2c, addr) {
            Ok(_) => {},
            Err(_) => { return Err(BusError::Bind); },
        }
        let mut servo = ServoDriver { i2c_port: i2c, log: Ghost(Seq::empty()) };
        match servo.initialize(freq_micros) {
            Ok(_) => {
                proof {
                    let p = spec_prescale(freq_micros);
                    let m = choose|m: u8|
                        servo@ == Seq::<BusOp>::empty() + init_ops(m, p);
                    assert(servo@ =~~= init_ops(m, p));
                }
                Ok(servo)
            },
            Err(e) => Err(e),
        }
    }

    /// Issue the software-reset write: restart bit to the mode register.
    fn reset(&mut self) -> (r: Result<(), BusError>)
        ensures
            final(self)@ == old(self)@ + reset_ops(),
            r matches Err(e) ==> e == BusError::Write,
    {
        let message: Vec<u8> = vec![MODE1_ADDR, MODE1_RESTART];
        let r = self.bus_write(&message);
        proof {
            assert(self@ =~~= old(self)@ + reset_ops());
        }
        match r {
            Ok(_) => Ok(()),
            Err(_) => Err(BusError::Write),
        }
    }

    /// Run the initialization sequence on an already bound bus handle.
    fn initialize(&mut self, freq_micros: u64) -> (r: Result<(), BusError>)
        requires
            1 <= freq_micros,
        ensures
            r matches Ok(_) ==> exists|m: u8|
                final(self)@ == old(self)@ + init_ops(m, spec_prescale(freq_micros)),
            r matches Err(e) ==> (e == BusError::Write || e == BusError::Read)
                && exists|m: u8, k: int|
                    1 <= k <= 8 && final(self)@ == old(self)@
                        + init_ops(m, spec_prescale(freq_micros)).take(k),
    {
        let ghost p = spec_prescale(freq_micros);
        match self.reset() {
            Ok(_) => {},
            Err(e) => {
                proof {
                    assert(self@ =~~= old(self)@ + init_ops(0u8, p).take(1));
                }
                return Err(e);
            },
        }
        let ghost log1 = self@;
        match self.set_prescale(freq_micros) {
            Ok(_) => {},
            Err(e) => {
                proof {
                    let (m, k): (u8, int) = choose|m: u8, k: int|
                        1 <= k <= 5 && self@ == log1 + prescale_ops(m, p).take(k);
                    assert(self@ =~~= old(self)@ + init_ops(m, p).take(1 + k));
                }
                return Err(e);
            },
        }
        let ghost log2 = self@;
        match self.set_mode() {
            Ok(_) => {},
            Err(e) => {
                proof {
                    let m = choose|m: u8| log2 == log1 + prescale_ops(m, p);
                    assert(self@ =~~= old(self)@ + init_ops(m, p).take(8));
                }
                return Err(e);
            },
        }
        proof {
            let m = choose|m: u8| log2 == log1 + prescale_ops(m, p);
            assert(self@ =~~= old(self)@ + init_ops(m, p));
        }
        Ok(())
    }

    /// Program the prescale register for the requested PWM frequency, in the
    /// required order: read the mode register, put the chip to sleep with
    /// the restart bit cleared, write the prescale, restore the old mode,
    /// then wait for the oscillator to restart.
    fn set_prescale(&mut self, freq_micros: u64) -> (r: Result<(), BusError>)
        requires
            1 <= freq_micros,
        ensures
            r matches Ok(_) ==> exists|m: u8|
                final(self)@ == old(self)@ + prescale_ops(m, spec_prescale(freq_micros)),
            r matches Err(e) ==> (e == BusError::Write || e == BusError::Read)
                && exists|m: u8, k: int|
                    1 <= k <= 5 && final(self)@ == old(self)@
                        + prescale_ops(m, spec_prescale(freq_micros)).take(k),
    {
        let ghost p = spec_prescale(freq_micros);
        let prescale_factor = prescale_from_freq(freq_micros);
        let mut mode_buf: Vec<u8> = vec![0u8];
        match self.read_reg(MODE1_ADDR, &mut mode_buf) {
            Ok(_) => {},
            Err(e) => {
                proof {
                    if e == BusError::Write {
                        assert(self@ =~~= old(self)@ + prescale_ops(0u8, p).take(1));
                    } else {
                        let m = mode_buf@[0];
                        assert(mode_buf@ =~= seq![m]);
                        assert(prescale_ops(m, p).take(2)
                            =~~= read_reg_ops(MODE1_ADDR, mode_buf@));
                        assert(self@ =~~= old(self)@ + prescale_ops(m, p).take(2));
                    }
                }
                return Err(e);
            },
        }
        let old_mode = mode_buf[0];
        proof {
            assert(mode_buf@ =~= seq![old_mode]);
        }
        let sleep_message: Vec<u8> = vec![MODE1_ADDR, sleep_mode(old_mode)];
        match self.bus_write(&sleep_message) {
            Ok(_) => {},
            Err(_) => {
                proof {
                    assert(self@ =~~= old(self)@ + prescale_ops(old_mode, p).take(3));
                }
                return Err(BusError::Write);
            },
        }
        let prescale_message: Vec<u8> = vec![PRESCALE_ADDR, prescale_factor];
        match self.bus_write(&prescale_message) {
            Ok(_) => {},
            Err(_) => {
                proof {
                    assert(self@ =~~= old(self)@ + prescale_ops(old_mode, p).take(4));
                }
                return Err(BusError::Write);
            },
        }
        let restore_message: Vec<u8> = vec![MODE1_ADDR, old_mode];
        match self.bus_write(&restore_message) {
            Ok(_) => {},
            Err(_) => {
                proof {
                    assert(self@ =~~= old(self)@ + prescale_ops(old_mode, p).take(5));
                }
                return Err(BusError::Write);
            },
        }
        self.settle_delay(SETTLE_MS);
        proof {
            assert(self@ =~~= old(self)@ + prescale_ops(old_mode, p));
        }
        Ok(())
    }

    /// Configure the mode register: restart and auto-increment bits set.
    fn set_mode(&mut self) -> (r: Result<(), BusError>)
        ensures
            final(self)@ == old(self)@ + mode_ops(),
            r matches Err(e) ==> e == BusError::Write,
    {
        let message: Vec<u8> = vec![MODE1_ADDR, MODE1_RESTART | MODE1_AI];
        let r = self.bus_write(&message);
        proof {
            assert(self@ =~~= old(self)@ + mode_ops());
        }
        match r {
            Ok(_) => Ok(()),
            Err(_) => Err(BusError::Write),
        }
    }

    /// Set a channel's duty cycle. `duty_cycle` is a fraction in
    /// micro-units and is clamped to [0, 1]; the channel starts its pulse at
    /// step 0 and turns off at the encoded step.
    pub fn set_duty_cycle(&mut self, motor: u8, duty_cycle: i64) -> (r: Result<(), BusError>)
        requires
            motor < 16,
        ensures
            final(self)@ == old(self)@ + duty_ops(motor, duty_cycle as int),
            r matches Err(e) ==> e == BusError::Write,
    {
        let message = duty_cycle_message(motor, duty_cycle);
        let r = self.bus_write(&message);
        proof {
            assert(self@ =~~= old(self)@ + duty_ops(motor, duty_cycle as int));
        }
        match r {
            Ok(_) => Ok(()),
            Err(_) => Err(BusError::Write),
        }
    }

    /// Switch every channel off through the broadcast register, then wait
    /// the settle delay; the write is issued before the delay, and the delay
    /// elapses before the function returns.
    pub fn all_off(&mut self) -> (r: Result<(), BusError>)
        ensures
            r matches Ok(_) ==> final(self)@ == old(self)@ + all_off_ops(),
            r matches Err(e) ==> e == BusError::Write
                && final(self)@ == old(self)@ + all_off_ops().take(1),
    {
        let message: Vec<u8> = vec![ALL_OFF_H_ADDR, ALL_OFF_H_ALL_OFF];
        match self.bus_write(&message) {
            Ok(_) => {},
            Err(_) => {
                proof {
                    assert(self@ =~~= old(self)@ + all_off_ops().take(1));
                }
                return Err(BusError::Write);
            },
        }
        self.settle_delay(SETTLE_MS);
        proof {
            assert(self@ =~~= old(self)@ + all_off_ops());
        }
        Ok(())
    }

    /// Read `buffer.len()` registers starting at `addr`: a one-byte address
    /// write, then one read transaction that relies on the auto-increment
    /// mode enabled at initialization. On success the buffer holds the bytes
    /// the chip sent.
    pub fn read_reg(&mut self, addr: u8, buffer: &mut Vec<u8>) -> (r: Result<(), BusError>)
        requires
            old(buffer).len() >= 1,
        ensures
            final(buffer)@.len() == old(buffer)@.len(),
            r matches Ok(_) ==> final(self)@ == old(self)@
                + read_reg_ops(addr, final(buffer)@),
            r matches Err(e) ==> (e == BusError::Write || e == BusError::Read),
            r == Err::<(), BusError>(BusError::Read) ==> final(self)@ == old(self)@
                + read_reg_ops(addr, final(buffer)@),
            r == Err::<(), BusError>(BusError::Write) ==> final(self)@ == old(self)@
                + read_reg_ops(addr, final(buffer)@).take(1)
                && final(buffer)@ == old(buffer)@.update(0, addr),
    {
        buffer[0] = addr;
        let addr_message: Vec<u8> = vec![addr];
        proof {
            assert(addr_message@ =~= seq![addr]);
            assert(buffer@ == old(buffer)@.update(0, addr));
        }
        match self.bus_write(&addr_message) {
            Ok(_) => {},
            Err(_) => {
                proof {
                    assert(self@ == old(self)@.push(BusOp::Write(addr_message@)));
                    assert(read_reg_ops(addr, buffer@).take(1) =~~= seq![
                        BusOp::Write(seq![addr]),
                    ]);
                    assert(self@ =~~= old(self)@ + read_reg_ops(addr, buffer@).take(1));
                }
                return Err(BusError::Write);
            },
        }
        let r = self.bus_read(buffer);
        proof {
            assert(self@ =~~= old(self)@ + read_reg_ops(addr, buffer@));
        }
        match r {
            Ok(_) => Ok(()),
            Err(_) => Err(BusError::Read),
        }
    }

    /// Put the chip to sleep: read the mode register, write it back with the
    /// sleep bit set, then wait the settle delay. Required before changing
    /// the prescale of a running chip.
    pub fn pwm_sleep(&mut self) -> (r: Result<(), BusError>)
        ensures
            r matches Ok(_) ==> exists|m: u8| final(self)@ == old(self)@ + sleep_ops(m),
            r matches Err(e) ==> (e == BusError::Write || e == BusError::Read)
                && exists|m: u8, k: int|
                    1 <= k <= 3 && final(self)@ == old(self)@ + sleep_ops(m).take(k),
    {
        let mut mode_buf: Vec<u8> = vec![0u8];
        match self.read_reg(MODE1_ADDR, &mut mode_buf) {
            Ok(_) => {},
            Err(e) => {
                proof {
                    if e == BusError::Write {
                        assert(self@ =~~= old(self)@ + sleep_ops(0u8).take(1));
                    } else {
                        let m = mode_buf@[0];
                        assert(mode_buf@ =~= seq![m]);
                        assert(sleep_ops(m).take(2) =~~= read_reg_ops(MODE1_ADDR, mode_buf@));
                        assert(self@ =~~= old(self)@ + sleep_ops(m).take(2));
                    }
                }
                return Err(e);
            },
        }
        let old_mode = mode_buf[0];
        proof {
            assert(mode_buf@ =~= seq![old_mode]);
        }
        let asleep: u8 = old_mode | MODE1_SLEEP;
        let message: Vec<u8> = vec![MODE1_ADDR, asleep];
        match self.bus_write(&message) {
            Ok(_) => {},
            Err(_) => {
                proof {
                    assert(self@ =~~= old(self)@ + sleep_ops(old_mode).take(3));
                }
                return Err(BusError::Write);
            },
        }
        self.settle_delay(SETTLE_MS);
        proof {
            assert(self@ =~~= old(self)@ + sleep_ops(old_mode));
        }
        Ok(())
    }
}

} // verus!
