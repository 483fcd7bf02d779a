use vstd::prelude::*;

use crate::bus::read_u16_le;
use crate::registers::{bit_clear, bit_of, bit_set, pin_bit};
use crate::types::{InterruptMirror, MyPort, PinNumber, PinSet};

verus! {

// A register pair is read and written as one 16-bit value: port A's byte is the low byte,
// port B's the high byte.

/// The low byte of a value.
pub open spec fn lo_byte(value: u16) -> u8 {
    (value % 256) as u8
}

/// The high byte of a value.
pub open spec fn hi_byte(value: u16) -> u8 {
    (value / 256) as u8
}

/// The value with low byte `lo` and high byte `hi`.
pub open spec fn join(lo: u8, hi: u8) -> u16 {
    (lo + 256 * hi) as u16
}

/// The port's byte of a register pair value.
pub open spec fn port_byte(value: u16, port: MyPort) -> u8 {
    match port {
        MyPort::Porta => lo_byte(value),
        MyPort::Portb => hi_byte(value),
    }
}

/// `value` with the port's byte replaced by `byte`; the other port's byte is kept.
pub open spec fn with_port_byte(value: u16, port: MyPort, byte: u8) -> u16 {
    match port {
        MyPort::Porta => join(byte, hi_byte(value)),
        MyPort::Portb => join(lo_byte(value), byte),
    }
}

/// `byte` with the pin's bit set (`High`) or cleared (`Low`).
pub open spec fn with_bit(byte: u8, pin: PinNumber, level: PinSet) -> u8 {
    match level {
        PinSet::High => byte | pin_bit(pin),
        PinSet::Low => byte & !pin_bit(pin),
    }
}

/// `value` with the bit of `pin` in the port's byte set or cleared; all other bits kept.
pub open spec fn with_pin(value: u16, port: MyPort, pin: PinNumber, level: PinSet) -> u16 {
    with_port_byte(value, port, with_bit(port_byte(value, port), pin, level))
}

/// `byte` with the IOCON.MIRROR bit switched on or off.
pub open spec fn with_mirror_bit(byte: u8, mirror: InterruptMirror) -> u8 {
    match mirror {
        InterruptMirror::MirrorOn => byte | mirror.mask(),
        InterruptMirror::MirrorOff => byte & mirror.mask(),
    }
}

/// `value` with the IOCON.MIRROR bit switched on or off in both port bytes.
pub open spec fn with_mirror(value: u16, mirror: InterruptMirror) -> u16 {
    join(with_mirror_bit(lo_byte(value), mirror), with_mirror_bit(hi_byte(value), mirror))
}

/// The low and high bytes of a value.
pub fn split(value: u16) -> (r: (u8, u8))
    ensures
        r.0 == lo_byte(value),
        r.1 == hi_byte(value),
{
    assert((value & 0xff) as u8 == value % 256 && (value >> 8) as u8 == value / 256) by (bit_vector);
    ((value & 0xff) as u8, (value >> 8) as u8)
}

/// The value with low byte `lo` and high byte `hi`.
pub fn join_bytes(lo: u8, hi: u8) -> (r: u16)
    ensures
        r == join(lo, hi),
{
    let bytes: [u8; 2] = [lo, hi];
    read_u16_le(&bytes)
}

/// The port's byte of a register pair value.
pub fn port_value(value: u16, port: MyPort) -> (r: u8)
    ensures
        r == port_byte(value, port),
{
    let (lo, hi) = split(value);
    match port {
        MyPort::Porta => lo,
        MyPort::Portb => hi,
    }
}

/// `value` with the bit of `pin` in the port's byte set or cleared.
pub fn set_pin_level(value: u16, port: MyPort, pin: PinNumber, level: PinSet) -> (r: u16)
    ensures
        r == with_pin(value, port, pin, level),
{
    let (lo, hi) = split(value);
    let (lo, hi) = match (port, level) {
        (MyPort::Porta, PinSet::High) => (bit_set(lo, pin), hi),
        (MyPort::Porta, PinSet::Low) => (bit_clear(lo, pin), hi),
        (MyPort::Portb, PinSet::High) => (lo, bit_set(hi, pin)),
        (MyPort::Portb, PinSet::Low) => (lo, bit_clear(hi, pin)),
    };
    join_bytes(lo, hi)
}

/// `value` with the IOCON.MIRROR bit switched on or off in both port bytes.
pub fn set_mirror(value: u16, mirror: InterruptMirror) -> (r: u16)
    ensures
        r == with_mirror(value, mirror),
{
    let (lo, hi) = split(value);
    let mask = mirror.value();
    let (lo, hi) = match mirror {
        InterruptMirror::MirrorOn => (lo | mask, hi | mask),
        InterruptMirror::MirrorOff => (lo & mask, hi & mask),
    };
    join_bytes(lo, hi)
}

} // verus!
