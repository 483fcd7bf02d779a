//! Register-level driver for the MCP23017 16-bit I2C GPIO expander.
//!
//! The chip handle carries its configuration phase in its type: a new handle must choose a
//! direction first, an input handle is set up (pulls, interrupts) before it becomes ready, and
//! each phase offers only the operations that make sense in it. Every operation is a short,
//! fixed sequence of register reads and writes on the bus, and the contracts state that sequence
//! exactly, over a ghost record of the transfers each handle has issued.
use vstd::prelude::*;

pub mod bus;
pub mod chipmode;

pub mod registers;
pub mod types;
pub mod word;

pub use bus::Transfer;
pub use chipmode::MCP23017;

pub use registers::{
    bit_clear, bit_read, bit_set, i2c_comm_error, mask_to_pin, pin_mask_to_number, pin_number_to_mask,
    register_address, Configuring, InputConfiguring, InputReady, OutputReady, PinMask, Register,
};
pub use types::{Error, InterruptMirror, InterruptOn, MyPort, PinNumber, PinSet, SlaveAddressing};

verus! {

/// 1 for a strap tied high, 0 for one tied low.
pub open spec fn strap_bit(s: SlaveAddressing) -> u8 {
    match s {
        SlaveAddressing::Low => 0,
        SlaveAddressing::High => 1,
    }
}

/// The 3-bit pattern of the straps, `a0` the most significant.
pub open spec fn strap_pattern(a0: SlaveAddressing, a1: SlaveAddressing, a2: SlaveAddressing) -> int {
    4 * strap_bit(a0) + 2 * strap_bit(a1) + strap_bit(a2)
}

/// The bus address that the three address straps select.
pub fn convert_slave_address(a0: SlaveAddressing, a1: SlaveAddressing, a2: SlaveAddressing) -> (r: u8)
    ensures
        r == 0x20 + strap_pattern(a0, a1, a2),
{
    match (a0, a1, a2) {
        (SlaveAddressing::Low, SlaveAddressing::Low, SlaveAddressing::Low) => 0x20,
        (SlaveAddressing::Low, SlaveAddressing::Low, SlaveAddressing::High) => 0x21,
        (SlaveAddressing::Low, SlaveAddressing::High, SlaveAddressing::Low) => 0x22,
        (SlaveAddressing::Low, SlaveAddressing::High, SlaveAddressing::High) => 0x23,
        (SlaveAddressing::High, SlaveAddressing::Low, SlaveAddressing::Low) => 0x24,
        (SlaveAddressing::High, SlaveAddressing::Low, SlaveAddressing::High) => 0x25,
        (SlaveAddressing::High, SlaveAddressing::High, SlaveAddressing::Low) => 0x26,
        (SlaveAddressing::High, SlaveAddressing::High, SlaveAddressing::High) => 0x27,
    }
}

/// The strap addresses run from 0x20 to 0x27 and grow strictly with the strap pattern, so the
/// eight combinations give eight different addresses.
pub proof fn lemma_strap_addresses(
    a0: SlaveAddressing,
    a1: SlaveAddressing,
    a2: SlaveAddressing,
    b0: SlaveAddressing,
    b1: SlaveAddressing,
    b2: SlaveAddressing,
)
    ensures
        0x20 <= 0x20 + strap_pattern(a0, a1, a2) <= 0x27,
        strap_pattern(a0, a1, a2) < strap_pattern(b0, b1, b2) ==> 0x20 + strap_pattern(a0, a1, a2)
            < 0x20 + strap_pattern(b0, b1, b2),
        strap_pattern(a0, a1, a2) == strap_pattern(b0, b1, b2) ==> a0 == b0 && a1 == b1 && a2
            == b2,
{
}

} // verus!
