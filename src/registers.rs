use vstd::prelude::*;

use crate::types::{Error, MyPort, PinNumber};

verus! {

/// Phase of a chip whose direction is not chosen yet.
#[derive(Debug, Clone)]
pub struct Configuring;

/// Phase of a chip whose pins are all outputs.
#[derive(Debug, Clone)]
pub struct OutputReady;

/// Phase of a chip whose pins are all inputs, while pulls and interrupts are set up.
#[derive(Debug, Clone)]
pub struct InputConfiguring;

/// Phase of a chip whose pins are all inputs, set up and ready to be read.
#[derive(Debug, Clone)]
pub struct InputReady;

/// The register pairs of the chip (bank 0 layout); each pair holds port A's byte and, one
/// address above, port B's.
#[derive(Copy, Clone, PartialEq, Eq, Debug, Structural)]
pub enum Register {
    Iodir,
    Ipol,
    Gpinten,
    Defval,
    Intcon,
    Iocon,
    Gppu,
    Intf,
    Intcap,
    Gpio,
    Olat,
}

impl Register {
    /// Address of the register's port A byte.
    pub open spec fn offset(self) -> u8 {
        match self {
            Register::Iodir => 0x00,
            Register::Ipol => 0x02,
            Register::Gpinten => 0x04,
            Register::Defval => 0x06,
            Register::Intcon => 0x08,
            Register::Iocon => 0x0A,
            Register::Gppu => 0x0C,
            Register::Intf => 0x0E,
            Register::Intcap => 0x10,
            Register::Gpio => 0x12,
            Register::Olat => 0x14,
        }
    }

    /// Address of the register's port A byte.
    pub fn base(self) -> (r: u8)
        ensures
            r == self.offset(),
    {
        match self {
            Register::Iodir => 0x00,
            Register::Ipol => 0x02,
            Register::Gpinten => 0x04,
            Register::Defval => 0x06,
            Register::Intcon => 0x08,
            Register::Iocon => 0x0A,
            Register::Gppu => 0x0C,
            Register::Intf => 0x0E,
            Register::Intcap => 0x10,
            Register::Gpio => 0x12,
            Register::Olat => 0x14,
        }
    }

    /// The register's name with its address.
    pub fn label(&self) -> (r: &'static str)
        ensures
            r@ == register_label(*self),
    {
        match self {
            Register::Iodir => "Iodir (0x00)",
            Register::Ipol => "Ipol (0x02)",
            Register::Gpinten => "Gpinten (0x04)",
            Register::Defval => "Defval (0x06)",
            Register::Intcon => "Intcon (0x08)",
            Register::Iocon => "Iocon (0x0A)",
            Register::Gppu => "Gppu (0x0C)",
            Register::Intf => "Intf (0x0E)",
            Register::Intcap => "Intcap (0x10)",
            Register::Gpio => "Gpio (0x12)",
            Register::Olat => "Olat (0x14)",
        }
    }
}

/// The name of each register with its address.
pub open spec fn register_label(r: Register) -> Seq<char> {
    match r {
        Register::Iodir => "Iodir (0x00)"@,
        Register::Ipol => "Ipol (0x02)"@,
        Register::Gpinten => "Gpinten (0x04)"@,
        Register::Defval => "Defval (0x06)"@,
        Register::Intcon => "Intcon (0x08)"@,
        Register::Iocon => "Iocon (0x0A)"@,
        Register::Gppu => "Gppu (0x0C)"@,
        Register::Intf => "Intf (0x0E)"@,
        Register::Intcap => "Intcap (0x10)"@,
        Register::Gpio => "Gpio (0x12)"@,
        Register::Olat => "Olat (0x14)"@,
    }
}

/// Address of one port's byte of a register.
pub fn register_address(register: Register, port: MyPort) -> (r: u8)
    ensures
        r == register.offset() | port.select(),
        r == register.offset() + port.select(),
{
    let base = register.base();
    let select = port.select_bit();
    assert(base % 2 == 0 && select <= 1);
    assert(base | select == base + select) by (bit_vector)
        requires
            base % 2 == 0 && select <= 1,
    ;
    base | select
}

/// A single-bit mask of a port's byte, or `Invalid` for a value with no pin.
#[derive(Copy, Clone, PartialEq, Eq, Debug, Structural)]
pub enum PinMask {
    Pin0,
    Pin1,
    Pin2,
    Pin3,
    Pin4,
    Pin5,
    Pin6,
    Pin7,
    Invalid,
}

impl PinMask {
    /// The byte value of the mask.
    pub open spec fn bits(self) -> u8 {
        match self {
            PinMask::Pin0 => 0x01,
            PinMask::Pin1 => 0x02,
            PinMask::Pin2 => 0x04,
            PinMask::Pin3 => 0x08,
            PinMask::Pin4 => 0x10,
            PinMask::Pin5 => 0x20,
            PinMask::Pin6 => 0x40,
            PinMask::Pin7 => 0x80,
            PinMask::Invalid => 0x00,
        }
    }

    /// The byte value of the mask.
    pub fn value(&self) -> (r: u8)
        ensures
            r == self.bits(),
    {
        match self {
            PinMask::Pin0 => 0x01,
            PinMask::Pin1 => 0x02,
            PinMask::Pin2 => 0x04,
            PinMask::Pin3 => 0x08,
            PinMask::Pin4 => 0x10,
            PinMask::Pin5 => 0x20,
            PinMask::Pin6 => 0x40,
            PinMask::Pin7 => 0x80,
            PinMask::Invalid => 0x00,
        }
    }
}

/// The mask whose value is `v`; `Invalid` where no mask has that value.
pub open spec fn mask_with_bits(v: u8) -> PinMask {
    if exists|m: PinMask| m.bits() == v {
        choose|m: PinMask| m.bits() == v
    } else {
        PinMask::Invalid
    }
}

impl From<u8> for PinMask {
    fn from(value: u8) -> PinMask {
        let r = match value {
            0x01 => PinMask::Pin0,
            0x02 => PinMask::Pin1,
            0x04 => PinMask::Pin2,
            0x08 => PinMask::Pin3,
            0x10 => PinMask::Pin4,
            0x20 => PinMask::Pin5,
            0x40 => PinMask::Pin6,
            0x80 => PinMask::Pin7,
            _ => PinMask::Invalid,
        };
        proof {
            lemma_mask_bits_injective();
            if r is Invalid && value != 0 {
                assert forall|m: PinMask| m.bits() != value by {}
            } else {
                assert(r.bits() == value);
            }
        }
        r
    }
}

impl vstd::std_specs::convert::FromSpecImpl<u8> for PinMask {
    open spec fn obeys_from_spec() -> bool {
        true
    }

    open spec fn from_spec(v: u8) -> PinMask {
        mask_with_bits(v)
    }
}

/// Two masks with one value are the same mask.
pub proof fn lemma_mask_bits_injective()
    ensures
        forall|m: PinMask, n: PinMask| #[trigger] m.bits() == #[trigger] n.bits() ==> m == n,
{
}

/// Maps any failure of the bus to the driver's communication error.
pub fn i2c_comm_error<E>(_error: E) -> (r: Error)
    ensures
        r == Error::CommunicationErr,
{
    Error::CommunicationErr
}

/// The bit of a pin within its port's byte.
pub open spec fn pin_bit(pin: PinNumber) -> u8 {
    1u8 << pin.pos()
}

/// The pin whose bit is `v`; `None` where `v` is no pin's bit (zero, or more than one bit set).
pub open spec fn pin_with_bit(v: u8) -> Option<PinNumber> {
    if exists|p: PinNumber| pin_bit(p) == v {
        Some(choose|p: PinNumber| pin_bit(p) == v)
    } else {
        None
    }
}

/// The value, 0 or 1, of a pin's bit in a byte.
pub open spec fn bit_of(byte: u8, pin: PinNumber) -> u8 {
    (byte >> pin.pos()) & 1
}

/// The bit of each pin.
pub proof fn lemma_pin_bit_values()
    ensures
        pin_bit(PinNumber::Pin0) == 0x01,
        pin_bit(PinNumber::Pin1) == 0x02,
        pin_bit(PinNumber::Pin2) == 0x04,
        pin_bit(PinNumber::Pin3) == 0x08,
        pin_bit(PinNumber::Pin4) == 0x10,
        pin_bit(PinNumber::Pin5) == 0x20,
        pin_bit(PinNumber::Pin6) == 0x40,
        pin_bit(PinNumber::Pin7) == 0x80,
{
    assert(1u8 << 0u8 == 0x01u8) by (bit_vector);
    assert(1u8 << 1u8 == 0x02u8) by (bit_vector);
    assert(1u8 << 2u8 == 0x04u8) by (bit_vector);
    assert(1u8 << 3u8 == 0x08u8) by (bit_vector);
    assert(1u8 << 4u8 == 0x10u8) by (bit_vector);
    assert(1u8 << 5u8 == 0x20u8) by (bit_vector);
    assert(1u8 << 6u8 == 0x40u8) by (bit_vector);
    assert(1u8 << 7u8 == 0x80u8) by (bit_vector);
}

/// Different pins have different bits, and no pin's bit is zero.
pub proof fn lemma_pin_bit_injective()
    ensures
        forall|p: PinNumber, q: PinNumber| #[trigger] pin_bit(p) == #[trigger] pin_bit(q) ==> p == q,
        forall|p: PinNumber| #[trigger] pin_bit(p) != 0,
{
    lemma_pin_bit_values();
}

/// The mask of a pin.
pub fn pin_number_to_mask(pin: PinNumber) -> (r: PinMask)
    ensures
        r.bits() == pin_bit(pin),
        r == mask_with_bits(pin_bit(pin)),
{
    proof {
        lemma_pin_bit_values();
        lemma_mask_bits_injective();
    }
    let r = match pin {
        PinNumber::Pin0 => PinMask::Pin0,
        PinNumber::Pin1 => PinMask::Pin1,
        PinNumber::Pin2 => PinMask::Pin2,
        PinNumber::Pin3 => PinMask::Pin3,
        PinNumber::Pin4 => PinMask::Pin4,
        PinNumber::Pin5 => PinMask::Pin5,
        PinNumber::Pin6 => PinMask::Pin6,
        PinNumber::Pin7 => PinMask::Pin7,
    };
    proof {
        assert(r.bits() == pin_bit(pin));
    }
    r
}

/// The pin of a mask; `None` for `Invalid`.
pub fn pin_mask_to_number(pin: PinMask) -> (r: Option<PinNumber>)
    ensures
        r == pin_with_bit(pin.bits()),
{
    proof {
        lemma_pin_bit_injective();
        lemma_pin_bit_values();
    }
    match pin {
        PinMask::Pin0 => Some(PinNumber::Pin0),
        PinMask::Pin1 => Some(PinNumber::Pin1),
        PinMask::Pin2 => Some(PinNumber::Pin2),
        PinMask::Pin3 => Some(PinNumber::Pin3),
        PinMask::Pin4 => Some(PinNumber::Pin4),
        PinMask::Pin5 => Some(PinNumber::Pin5),
        PinMask::Pin6 => Some(PinNumber::Pin6),
        PinMask::Pin7 => Some(PinNumber::Pin7),
        PinMask::Invalid => None,
    }
}

/// The pin whose bit is `bits`; `None` for zero or for a value with more than one bit set.
pub fn mask_to_pin(bits: u8) -> (r: Option<PinNumber>)
    ensures
        r == pin_with_bit(bits),
{
    let mask = PinMask::from(bits);
    proof {
        lemma_pin_bit_values();
        lemma_pin_bit_injective();
        lemma_mask_bits_injective();
        if !(exists|m: PinMask| m.bits() == bits) {
            assert forall|p: PinNumber| pin_bit(p) != bits by {
                let m = match p {
                    PinNumber::Pin0 => PinMask::Pin0,
                    PinNumber::Pin1 => PinMask::Pin1,
                    PinNumber::Pin2 => PinMask::Pin2,
                    PinNumber::Pin3 => PinMask::Pin3,
                    PinNumber::Pin4 => PinMask::Pin4,
                    PinNumber::Pin5 => PinMask::Pin5,
                    PinNumber::Pin6 => PinMask::Pin6,
                    PinNumber::Pin7 => PinMask::Pin7,
                };
                assert(m.bits() == pin_bit(p));
            }
        }
    }
    pin_mask_to_number(mask)
}

/// `byte` with the pin's bit set.
pub fn bit_set(byte: u8, pin: PinNumber) -> (r: u8)
    ensures
        r == byte | pin_bit(pin),
{
    byte | pin_number_to_mask(pin).value()
}

/// `byte` with the pin's bit cleared.
pub fn bit_clear(byte: u8, pin: PinNumber) -> (r: u8)
    ensures
        r == byte & !pin_bit(pin),
{
    byte & !pin_number_to_mask(pin).value()
}

/// The pin's bit of `byte`, shifted down to 0 or 1.
pub fn bit_read(byte: u8, pin: PinNumber) -> (r: u8)
    ensures
        r == bit_of(byte, pin),
        r <= 1,
{
    let mask = pin_number_to_mask(pin).value();
    let shift = pin.position();
    assert((byte & (1u8 << shift)) >> shift == (byte >> shift) & 1) by (bit_vector)
        requires
            shift < 8,
    ;
    assert((byte >> shift) & 1 <= 1) by (bit_vector);
    (byte & mask) >> shift
}

/// Mapping a pin to its mask and the mask back to a pin gives the pin again.
pub proof fn lemma_mask_round_trip(pin: PinNumber)
    ensures
        pin_with_bit(pin_bit(pin)) == Some(pin),
{
    lemma_pin_bit_injective();
}

/// Setting a pin's bit makes it 1, clearing it makes it 0, and neither touches the bit of any
/// other pin.
pub proof fn lemma_set_clear_bit(byte: u8, pin: PinNumber)
    ensures
        bit_of(byte | pin_bit(pin), pin) == 1,
        bit_of(byte & !pin_bit(pin), pin) == 0,
        forall|other: PinNumber|
            other != pin ==> #[trigger] bit_of(byte | pin_bit(pin), other) == bit_of(byte, other),
        forall|other: PinNumber|
            other != pin ==> #[trigger] bit_of(byte & !pin_bit(pin), other) == bit_of(byte, other),
{
    let i = pin.pos();
    assert(i < 8 ==> ((byte | (1u8 << i)) >> i) & 1 == 1) by (bit_vector);
    assert(i < 8 ==> ((byte & !(1u8 << i)) >> i) & 1 == 0) by (bit_vector);
    assert forall|other: PinNumber| other != pin implies #[trigger] bit_of(byte | pin_bit(pin), other)
        == bit_of(byte, other) by {
        let j = other.pos();
        assert(i < 8 && j < 8 && i != j ==> ((byte | (1u8 << i)) >> j) & 1 == (byte >> j) & 1)
            by (bit_vector);
    }
    assert forall|other: PinNumber| other != pin implies #[trigger] bit_of(byte & !pin_bit(pin), other)
        == bit_of(byte, other) by {
        let j = other.pos();
        assert(i < 8 && j < 8 && i != j ==> ((byte & !(1u8 << i)) >> j) & 1 == (byte >> j) & 1)
            by (bit_vector);
    }
}

} // verus!
