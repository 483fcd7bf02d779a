use vstd::prelude::*;

use core::marker::PhantomData;
use embedded_hal::i2c::I2c;

use crate::bus::{
    acked_of, bus_write, bus_write_read, le_bytes, ok_value, read_u16_le, reading_of, register_read,
    register_write, write_outcome, Transfer,
};
use crate::registers::{
    bit_of, bit_read, i2c_comm_error, lemma_pin_bit_injective, mask_to_pin, pin_with_bit,
    Configuring, InputConfiguring, InputReady, OutputReady, Register,
};
use crate::types::{Error, InterruptMirror, InterruptOn, MyPort, PinNumber, PinSet};
use crate::word::{
    port_byte, port_value, set_mirror, set_pin_level, split, with_mirror,
    with_pin,
};

verus! {

/// `after` is `before` and one read of the register pair; the read's outcome is in the record.
pub open spec fn one_read(before: Seq<Transfer>, after: Seq<Transfer>, address: u8, register: Register) -> bool {
    &&& after.len() == before.len() + 1
    &&& after == before.push(register_read(address, register, reading_of(after.last())))
}

/// `after` is `before` and a read of the register pair, followed, where the read succeeded, by a
/// write of `update` applied to the value read; `r` is the outcome: `Ok` only where the write
/// was acknowledged.
pub open spec fn read_modify_write(
    before: Seq<Transfer>,
    after: Seq<Transfer>,
    address: u8,
    register: Register,
    update: spec_fn(u16) -> u16,
    r: Result<(), Error>,
) -> bool {
    &&& after.len() > before.len()
    &&& match reading_of(after[before.len() as int]) {
        None => {
            &&& after == before.push(register_read(address, register, None))
            &&& r == Err::<(), Error>(Error::CommunicationErr)
        },
        Some(v) => {
            &&& after == before.push(register_read(address, register, Some(v))).push(
                register_write(address, register, update(v), acked_of(after.last())),
            )
            &&& r == write_outcome(acked_of(after.last()))
        },
    }
}

/// `after` is `before` and a read of INTCON; where the pin's INTCON bit is 1 (compare mode), a
/// read-modify-write of its DEFVAL bit follows; where it is 0, nothing follows and `r` is
/// `InvalidInterruptSetting`.
pub open spec fn compare_update(
    before: Seq<Transfer>,
    after: Seq<Transfer>,
    address: u8,
    port: MyPort,
    pin: PinNumber,
    value: PinSet,
    r: Result<(), Error>,
) -> bool {
    &&& after.len() > before.len()
    &&& match reading_of(after[before.len() as int]) {
        None => {
            &&& after == before.push(register_read(address, Register::Intcon, None))
            &&& r == Err::<(), Error>(Error::CommunicationErr)
        },
        Some(intcon) => if bit_of(port_byte(intcon, port), pin) == 1 {
            read_modify_write(
                before.push(register_read(address, Register::Intcon, Some(intcon))),
                after,
                address,
                Register::Defval,
                |v: u16| with_pin(v, port, pin, value),
                r,
            )
        } else {
            &&& after == before.push(register_read(address, Register::Intcon, Some(intcon)))
            &&& r == Err::<(), Error>(Error::InvalidInterruptSetting)
        },
    }
}

/// The GPPU value for a uniform pull on every pin.
pub open spec fn pull_word(pull: PinSet) -> u16 {
    match pull {
        PinSet::High => 0xFFFF,
        PinSet::Low => 0x0000,
    }
}

/// A handle on one chip at one bus address, in the configuration phase `State`.
///
/// Besides the bus and the address, the handle keeps a ghost record of the transfers it has
/// issued; the operations' contracts say how each one extends that record.
pub struct MCP23017<I2C, State = Configuring> {
    i2c: I2C,
    address: u8,
    state: PhantomData<State>,
    issued: Ghost<Seq<Transfer>>,
}

impl<I2C: I2c, State> MCP23017<I2C, State> {
    /// The bus address of the chip.
    pub closed spec fn addr(&self) -> u8 {
        self.address
    }

    /// The transfers issued through this handle and the handles it was made from, oldest first.
    pub closed spec fn trace(&self) -> Seq<Transfer> {
        self.issued@
    }

    /// A handle on the chip at `address`, which has issued nothing yet.
    pub fn new(i2c: I2C, address: u8) -> (r: Self)
        ensures
            r.addr() == address,
            r.trace() == Seq::<Transfer>::empty(),
    {
        MCP23017 { i2c, address, state: PhantomData, issued: Ghost(Seq::empty()) }
    }

    /// The bus address of the chip.
    pub fn address(&self) -> (r: u8)
        ensures
            r == self.addr(),
    {
        self.address
    }

    /// The same chip, bus and record, in another phase.
    fn into_phase<Next>(self) -> (r: MCP23017<I2C, Next>)
        ensures
            r.addr() == self.addr(),
            r.trace() == self.trace(),
    {
        MCP23017 { i2c: self.i2c, address: self.address, state: PhantomData, issued: self.issued }
    }

    /// Reads a register pair in one transaction: port A's byte is the low byte of the result.
    pub fn read_config(&mut self, register: Register) -> (r: Result<u16, Error>)
        ensures
            final(self).addr() == old(self).addr(),
            final(self).trace() == old(self).trace().push(
                register_read(old(self).addr(), register, ok_value(r)),
            ),
            r is Err ==> r == Err::<u16, Error>(Error::CommunicationErr),
    {
        let out: [u8; 1] = [register.base()];
        let reply = bus_write_read(&mut self.i2c, self.address, &out);
        let ghost sent = out@;
        let r = match reply {
            Ok(bytes) => Ok(read_u16_le(&bytes)),
            Err(e) => Err(i2c_comm_error(e)),
        };
        proof {
            assert(sent =~= seq![register.offset()]);
            if let Ok(bytes) = reply {
                assert(bytes@ =~= le_bytes(r->Ok_0));
            }
        }
        self.issued = Ghost(
            self.issued@.push(
                Transfer::WriteRead {
                    address: self.address,
                    bytes: sent,
                    reply: match reply {
                        Ok(bytes) => Some(bytes@),
                        Err(_) => None,
                    },
                },
            ),
        );
        r
    }

    /// Writes a register pair in one transaction: port A's byte (the low byte of `value`) first.
    pub fn write_config(&mut self, register: Register, value: u16) -> (r: Result<(), Error>)
        ensures
            final(self).addr() == old(self).addr(),
            final(self).trace() == old(self).trace().push(
                register_write(old(self).addr(), register, value, r is Ok),
            ),
            r == write_outcome(r is Ok),
    {
        let (lo, hi) = split(value);
        let frame: [u8; 3] = [register.base(), lo, hi];
        let sent = bus_write(&mut self.i2c, self.address, &frame);
        proof {
            assert(frame@ =~= seq![register.offset()] + le_bytes(value));
        }
        self.issued = Ghost(
            self.issued@.push(
                Transfer::Write { address: self.address, bytes: frame@, acked: sent is Ok },
            ),
        );
        match sent {
            Ok(()) => Ok(()),
            Err(e) => Err(i2c_comm_error(e)),
        }
    }

    /// Reads a register pair and writes it back with the bit of `pin` in the port's byte set to
    /// `level`.
    fn update_pin(&mut self, register: Register, port: MyPort, pin: PinNumber, level: PinSet) -> (r: Result<(), Error>)
        ensures
            final(self).addr() == old(self).addr(),
            read_modify_write(
                old(self).trace(),
                final(self).trace(),
                old(self).addr(),
                register,
                |v: u16| with_pin(v, port, pin, level),
                r,
            ),
    {
        let value = self.read_config(register);
        match value {
            Ok(v) => {
                self.write_config(register, set_pin_level(v, port, pin, level))
            },
            Err(e) => Err(e),
        }
    }
}

impl<I2C: I2c> MCP23017<I2C, Configuring> {
    /// Makes every pin an input: writes 0xFFFF to IODIR.
    pub fn set_as_input(self) -> (r: Result<MCP23017<I2C, InputConfiguring>, Error>)
        ensures
            r matches Ok(h) ==> h.addr() == self.addr() && h.trace() == self.trace().push(
                register_write(self.addr(), Register::Iodir, 0xFFFF, true),
            ),
            r matches Err(e) ==> e == Error::CommunicationErr,
    {
        let mut chip = self;
        match chip.write_config(Register::Iodir, 0xFFFF) {
            Ok(()) => Ok(chip.into_phase()),
            Err(e) => Err(e),
        }
    }

    /// Makes every pin an output: writes 0x0000 to IODIR.
    pub fn set_as_output(self) -> (r: Result<MCP23017<I2C, OutputReady>, Error>)
        ensures
            r matches Ok(h) ==> h.addr() == self.addr() && h.trace() == self.trace().push(
                register_write(self.addr(), Register::Iodir, 0x0000, true),
            ),
            r matches Err(e) ==> e == Error::CommunicationErr,
    {
        let mut chip = self;
        match chip.write_config(Register::Iodir, 0x0000) {
            Ok(()) => Ok(chip.into_phase()),
            Err(e) => Err(e),
        }
    }
}

impl<I2C: I2c> MCP23017<I2C, OutputReady> {
    /// Drives all sixteen outputs: writes `value` to GPIO, port A's byte (the low byte) first.
    pub fn write(&mut self, value: u16) -> (r: Result<(), Error>)
        ensures
            final(self).addr() == old(self).addr(),
            final(self).trace() == old(self).trace().push(
                register_write(old(self).addr(), Register::Gpio, value, r is Ok),
            ),
            r == write_outcome(r is Ok),
    {
        self.write_config(Register::Gpio, value)
    }

    /// Drives one output: reads GPIO and writes it back with the pin's bit at `value`.
    pub fn write_pin(&mut self, port: MyPort, pin: PinNumber, value: PinSet) -> (r: Result<(), Error>)
        ensures
            final(self).addr() == old(self).addr(),
            read_modify_write(
                old(self).trace(),
                final(self).trace(),
                old(self).addr(),
                Register::Gpio,
                |v: u16| with_pin(v, port, pin, value),
                r,
            ),
    {
        self.update_pin(Register::Gpio, port, pin, value)
    }
}

impl<I2C: I2c> MCP23017<I2C, InputConfiguring> {
    /// Sets the pull-up of every pin: writes 0xFFFF (`High`) or 0x0000 (`Low`) to GPPU.
    pub fn set_pull(self, pull: PinSet) -> (r: Result<Self, Error>)
        ensures
            r matches Ok(h) ==> h.addr() == self.addr() && h.trace() == self.trace().push(
                register_write(self.addr(), Register::Gppu, pull_word(pull), true),
            ),
            r matches Err(e) ==> e == Error::CommunicationErr,
    {
        let mut chip = self;
        let word: u16 = match pull {
            PinSet::High => 0xFFFF,
            PinSet::Low => 0x0000,
        };
        match chip.write_config(Register::Gppu, word) {
            Ok(()) => Ok(chip),
            Err(e) => Err(e),
        }
    }

    /// Switches IOCON.MIRROR on or off: reads IOCON and writes it back with the bit changed in
    /// both port bytes.
    pub fn set_interrupt_mirror(self, mirror: InterruptMirror) -> (r: Result<Self, Error>)
        ensures
            r matches Ok(h) ==> h.addr() == self.addr() && read_modify_write(
                self.trace(),
                h.trace(),
                self.addr(),
                Register::Iocon,
                |v: u16| with_mirror(v, mirror),
                Ok(()),
            ),
            r matches Err(e) ==> e == Error::CommunicationErr,
    {
        let mut chip = self;
        match chip.read_config(Register::Iocon) {
            Ok(v) => {
                match chip.write_config(Register::Iocon, set_mirror(v, mirror)) {
                    Ok(()) => Ok(chip),
                    Err(e) => Err(e),
                }
            },
            Err(e) => Err(e),
        }
    }

    /// Chooses what raises an interrupt on a pin: reads INTCON and writes it back with the pin's
    /// bit cleared (`PinChange`) or set (`ChangeFromRegister`).
    pub fn set_interrupt_on(self, port: MyPort, pin: PinNumber, interrupt_on: InterruptOn) -> (r: Result<Self, Error>)
        ensures
            r matches Ok(h) ==> h.addr() == self.addr() && read_modify_write(
                self.trace(),
                h.trace(),
                self.addr(),
                Register::Intcon,
                |v: u16| with_pin(v, port, pin, interrupt_on.level()),
                Ok(()),
            ),
            r matches Err(e) ==> e == Error::CommunicationErr,
    {
        let mut chip = self;
        let level = match interrupt_on {
            InterruptOn::PinChange => PinSet::Low,
            InterruptOn::ChangeFromRegister => PinSet::High,
        };
        match chip.update_pin(Register::Intcon, port, pin, level) {
            Ok(()) => Ok(chip),
            Err(e) => Err(e),
        }
    }

    /// Reads INTCON; where the pin compares against DEFVAL, updates its DEFVAL bit.
    fn update_compare(&mut self, port: MyPort, pin: PinNumber, value: PinSet) -> (r: Result<(), Error>)
        ensures
            final(self).addr() == old(self).addr(),
            compare_update(old(self).trace(), final(self).trace(), old(self).addr(), port, pin, value, r),
    {
        let intcon = match self.read_config(Register::Intcon) {
            Ok(v) => v,
            Err(e) => {
                return Err(e);
            },
        };
        if bit_read(port_value(intcon, port), pin) != 1 {
            return Err(Error::InvalidInterruptSetting);
        }
        self.update_pin(Register::Defval, port, pin, value)
    }

    /// Sets the value a pin is compared against: only for a pin whose INTCON bit is 1 (compare
    /// mode), else `InvalidInterruptSetting` before anything is written.
    pub fn set_interrupt_compare(self, port: MyPort, pin: PinNumber, value: PinSet) -> (r: Result<Self, Error>)
        ensures
            r matches Ok(h) ==> h.addr() == self.addr() && compare_update(
                self.trace(),
                h.trace(),
                self.addr(),
                port,
                pin,
                value,
                Ok(()),
            ),
            r matches Err(e) ==> e == Error::CommunicationErr || e == Error::InvalidInterruptSetting,
    {
        let mut chip = self;
        match chip.update_compare(port, pin, value) {
            Ok(()) => Ok(chip),
            Err(e) => Err(e),
        }
    }

    /// Ends the input set-up; no transfer.
    pub fn ready(self) -> (r: MCP23017<I2C, InputReady>)
        ensures
            r.addr() == self.addr(),
            r.trace() == self.trace(),
    {
        self.into_phase()
    }
}

impl<I2C: I2c> MCP23017<I2C, InputReady> {
    /// Reads all sixteen inputs from GPIO: port A's byte is the low byte.
    pub fn read(&mut self) -> (r: Result<u16, Error>)
        ensures
            final(self).addr() == old(self).addr(),
            one_read(old(self).trace(), final(self).trace(), old(self).addr(), Register::Gpio),
            r == (match reading_of(final(self).trace().last()) {
                Some(v) => Ok(v),
                None => Err(Error::CommunicationErr),
            }),
    {
        self.read_config(Register::Gpio)
    }

    /// Reads one input from GPIO: 0 or 1.
    pub fn read_pin(&mut self, port: MyPort, pin: PinNumber) -> (r: Result<u8, Error>)
        ensures
            final(self).addr() == old(self).addr(),
            one_read(old(self).trace(), final(self).trace(), old(self).addr(), Register::Gpio),
            r == (match reading_of(final(self).trace().last()) {
                Some(v) => Ok(bit_of(port_byte(v, port), pin)),
                None => Err(Error::CommunicationErr),
            }),
    {
        let value = self.read()?;
        Ok(bit_read(port_value(value, port), pin))
    }

    /// Stops a pin from raising interrupts: clears its GPINTEN bit.
    pub fn disable_interrupt(&mut self, port: MyPort, pin: PinNumber) -> (r: Result<(), Error>)
        ensures
            final(self).addr() == old(self).addr(),
            read_modify_write(
                old(self).trace(),
                final(self).trace(),
                old(self).addr(),
                Register::Gpinten,
                |v: u16| with_pin(v, port, pin, PinSet::Low),
                r,
            ),
    {
        self.update_pin(Register::Gpinten, port, pin, PinSet::Low)
    }

    /// Lets a pin raise interrupts: sets its GPINTEN bit.
    pub fn enable_interrupt(&mut self, port: MyPort, pin: PinNumber) -> (r: Result<(), Error>)
        ensures
            final(self).addr() == old(self).addr(),
            read_modify_write(
                old(self).trace(),
                final(self).trace(),
                old(self).addr(),
                Register::Gpinten,
                |v: u16| with_pin(v, port, pin, PinSet::High),
                r,
            ),
    {
        self.update_pin(Register::Gpinten, port, pin, PinSet::High)
    }

    /// The pin of the port whose interrupt flag (INTF) is raised: `None` where no single flag is
    /// raised, and also where the bus failed, which is not told apart from "no interrupt".
    pub fn get_interrupted_pin(&mut self, port: MyPort) -> (r: Option<PinNumber>)
        ensures
            final(self).addr() == old(self).addr(),
            one_read(old(self).trace(), final(self).trace(), old(self).addr(), Register::Intf),
            r == (match reading_of(final(self).trace().last()) {
                Some(v) => pin_with_bit(port_byte(v, port)),
                None => None,
            }),
    {
        let flags = match self.read_config(Register::Intf) {
            Ok(v) => v,
            Err(_) => 0,
        };
        proof {
            lemma_pin_bit_injective();
        }
        mask_to_pin(port_value(flags, port))
    }
}

/// Setting one pull twice in a row issues two identical GPPU writes: what each call sends
/// depends on the address and the pull alone, not on what the handle issued before.
pub proof fn lemma_set_pull_twice<I2C: I2c>(
    first: MCP23017<I2C, InputConfiguring>,
    second: MCP23017<I2C, InputConfiguring>,
    third: MCP23017<I2C, InputConfiguring>,
    pull: PinSet,
)
    requires
        call_ensures(MCP23017::<I2C, InputConfiguring>::set_pull, (first, pull), Ok::<_, Error>(second)),
        call_ensures(MCP23017::<I2C, InputConfiguring>::set_pull, (second, pull), Ok::<_, Error>(third)),
    ensures
        third.addr() == first.addr(),
        third.trace() == first.trace() + seq![
            register_write(first.addr(), Register::Gppu, pull_word(pull), true),
            register_write(first.addr(), Register::Gppu, pull_word(pull), true),
        ],
{
    assert(third.trace() =~= first.trace() + seq![
        register_write(first.addr(), Register::Gppu, pull_word(pull), true),
        register_write(first.addr(), Register::Gppu, pull_word(pull), true),
    ]);
}

} // verus!
