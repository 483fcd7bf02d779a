use vstd::prelude::*;

use crate::registers::Register;
use crate::types::Error;
use crate::word::{hi_byte, join, lo_byte};

verus! {

/// One transaction on the bus, as a chip handle issued it.
pub enum Transfer {
    /// `bytes` written to the device at `address`; `acked` tells whether the bus reported
    /// success.
    Write { address: u8, bytes: Seq<u8>, acked: bool },
    /// `bytes` written to the device at `address`, then two bytes read back in the same
    /// transaction; `reply` holds them, or is `None` where the bus reported a failure.
    WriteRead { address: u8, bytes: Seq<u8>, reply: Option<Seq<u8>> },
}

/// A register pair value as it travels on the bus: port A's byte first.
pub open spec fn le_bytes(value: u16) -> Seq<u8> {
    seq![lo_byte(value), hi_byte(value)]
}

/// A write of `value` to the register pair, in one transaction.
pub open spec fn register_write(address: u8, register: Register, value: u16, acked: bool) -> Transfer {
    Transfer::Write { address, bytes: seq![register.offset()] + le_bytes(value), acked }
}

/// A read of the register pair, in one transaction; `reading` is the value read, or `None`
/// where the bus failed.
pub open spec fn register_read(address: u8, register: Register, reading: Option<u16>) -> Transfer {
    Transfer::WriteRead {
        address,
        bytes: seq![register.offset()],
        reply: match reading {
            Some(v) => Some(le_bytes(v)),
            None => None,
        },
    }
}

/// The value that a read brought back, if any.
pub open spec fn reading_of(t: Transfer) -> Option<u16> {
    match t {
        Transfer::WriteRead { reply, .. } => match reply {
            Some(b) => Some(join(b[0], b[1])),
            None => None,
        },
        Transfer::Write { .. } => None,
    }
}

/// Whether the bus acknowledged a write.
pub open spec fn acked_of(t: Transfer) -> bool {
    match t {
        Transfer::Write { acked, .. } => acked,
        Transfer::WriteRead { .. } => false,
    }
}

/// The value of a successful read, as an option.
pub open spec fn ok_value(r: Result<u16, Error>) -> Option<u16> {
    match r {
        Ok(v) => Some(v),
        Err(_) => None,
    }
}

/// The outcome of an operation that ends with a write: `Ok` where the bus acknowledged it.
pub open spec fn write_outcome(acked: bool) -> Result<(), Error> {
    if acked {
        Ok(())
    } else {
        Err(Error::CommunicationErr)
    }
}

/// Relies on embedded_hal's `I2c::write`: sends `bytes` to the device at `address` in one
/// transaction. The unit error stands for whatever failure the bus reported.
#[verifier::external_body]
pub(crate) fn bus_write<I2C: embedded_hal::i2c::I2c>(i2c: &mut I2C, address: u8, bytes: &[u8]) -> Result<(), ()> {
    i2c.write(address, bytes).map_err(|_| ())
}

/// Relies on embedded_hal's `I2c::write_read`: sends `bytes` to the device at `address`, then
/// reads two bytes back, in one transaction. The unit error stands for whatever failure the bus
/// reported.
#[verifier::external_body]
pub(crate) fn bus_write_read<I2C: embedded_hal::i2c::I2c>(i2c: &mut I2C, address: u8, bytes: &[u8]) -> Result<[u8; 2], ()> {
    let mut buffer: [u8; 2] = [0u8, 0u8];
    match i2c.write_read(address, bytes, &mut buffer) {
        Ok(()) => Ok(buffer),
        Err(_) => Err(()),
    }
}

/// Relies on byteorder's `LittleEndian::read_u16`: the first two bytes as a little-endian
/// integer (it panics on fewer than two).
#[verifier::external_body]
pub(crate) fn read_u16_le(bytes: &[u8]) -> (r: u16)
    requires
        bytes@.len() >= 2,
    ensures
        r == bytes@[0] + 256 * bytes@[1],
{
    <byteorder::LittleEndian as byteorder::ByteOrder>::read_u16(bytes)
}

} // verus!
