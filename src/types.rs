use vstd::prelude::*;

verus! {

/// One of the eight lines of a port.
#[derive(Copy, Clone, PartialEq, Eq, Debug, Structural)]
pub enum PinNumber {
    Pin0,
    Pin1,
    Pin2,
    Pin3,
    Pin4,
    Pin5,
    Pin6,
    Pin7,
}

impl PinNumber {
    /// Bit position of the pin within its port's byte.
    pub open spec fn pos(self) -> u8 {
        match self {
            PinNumber::Pin0 => 0,
            PinNumber::Pin1 => 1,
            PinNumber::Pin2 => 2,
            PinNumber::Pin3 => 3,
            PinNumber::Pin4 => 4,
            PinNumber::Pin5 => 5,
            PinNumber::Pin6 => 6,
            PinNumber::Pin7 => 7,
        }
    }

    /// Bit position of the pin within its port's byte.
    pub fn position(self) -> (r: u8)
        ensures
            r == self.pos(),
    {
        match self {
            PinNumber::Pin0 => 0,
            PinNumber::Pin1 => 1,
            PinNumber::Pin2 => 2,
            PinNumber::Pin3 => 3,
            PinNumber::Pin4 => 4,
            PinNumber::Pin5 => 5,
            PinNumber::Pin6 => 6,
            PinNumber::Pin7 => 7,
        }
    }
}

/// One of the two 8-bit halves of the chip; port B's registers sit one address above port A's.
#[derive(Copy, Clone, PartialEq, Eq, Debug, Structural)]
pub enum MyPort {
    Porta,
    Portb,
}

impl MyPort {
    /// The port's name with its address bit.
    pub fn label(&self) -> (r: &'static str)
        ensures
            r@ == (match self {
                MyPort::Porta => "Porta (0x00)"@,
                MyPort::Portb => "Portb (0x01)"@,
            }),
    {
        match self {
            MyPort::Porta => "Porta (0x00)",
            MyPort::Portb => "Portb (0x01)",
        }
    }

    /// The bit that selects the port in a register address.
    pub open spec fn select(self) -> u8 {
        match self {
            MyPort::Porta => 0,
            MyPort::Portb => 1,
        }
    }

    /// The bit that selects the port in a register address.
    pub fn select_bit(self) -> (r: u8)
        ensures
            r == self.select(),
    {
        match self {
            MyPort::Porta => 0,
            MyPort::Portb => 1,
        }
    }
}

/// Level of one of the three address straps of the chip.
#[derive(Copy, Clone, PartialEq, Eq, Debug, Structural)]
pub enum SlaveAddressing {
    Low,
    High,
}

impl SlaveAddressing {
    /// The strap level's name.
    pub fn label(&self) -> (r: &'static str)
        ensures
            r@ == (match self {
                SlaveAddressing::High => "High"@,
                SlaveAddressing::Low => "Low"@,
            }),
    {
        match self {
            SlaveAddressing::High => "High",
            SlaveAddressing::Low => "Low",
        }
    }
}

/// Level of a pin, or of a pin's bit in a register (`High` is 1).
#[derive(Copy, Clone, PartialEq, Eq, Debug, Structural)]
pub enum PinSet {
    Low,
    High,
}

/// The errors of the driver.
#[derive(Copy, Clone, PartialEq, Eq, Debug, Structural)]
pub enum Error {
    CommunicationErr,
    InvalidParameter,
    InvalidDie,
    InvalidManufacturer,
    MissingAddress,
    MissingI2C,
    PinIsNotInput,
    InvalidInterruptSetting,
}

impl Error {
    /// A short description of the error.
    pub fn message(&self) -> (r: &'static str)
        ensures
            r@ == error_message(*self),
    {
        match self {
            Error::InvalidDie => "Invalid Die Number",
            Error::CommunicationErr => "Not found on address",
            Error::InvalidManufacturer => "Invalid Manufacturer",
            Error::InvalidParameter => "Invalid Parameter",
            Error::MissingAddress => "Missing Device Address",
            Error::MissingI2C => "Missing I2C Bus",
            Error::PinIsNotInput => "Pin is not Input",
            Error::InvalidInterruptSetting => "Invalid Interrupt Setting",
        }
    }
}

/// The description of each error.
pub open spec fn error_message(e: Error) -> Seq<char> {
    match e {
        Error::InvalidDie => "Invalid Die Number"@,
        Error::CommunicationErr => "Not found on address"@,
        Error::InvalidManufacturer => "Invalid Manufacturer"@,
        Error::InvalidParameter => "Invalid Parameter"@,
        Error::MissingAddress => "Missing Device Address"@,
        Error::MissingI2C => "Missing I2C Bus"@,
        Error::PinIsNotInput => "Pin is not Input"@,
        Error::InvalidInterruptSetting => "Invalid Interrupt Setting"@,
    }
}

/// What raises an interrupt on a pin: any change, or a difference from the DEFVAL bit.
#[derive(Copy, Clone, PartialEq, Eq, Debug, Structural)]
pub enum InterruptOn {
    PinChange,
    ChangeFromRegister,
}

impl InterruptOn {
    /// The INTCON bit that selects this mode.
    pub open spec fn level(self) -> PinSet {
        match self {
            InterruptOn::PinChange => PinSet::Low,
            InterruptOn::ChangeFromRegister => PinSet::High,
        }
    }
}

/// Whether the two interrupt outputs are tied together (IOCON.MIRROR).
#[derive(Copy, Clone, PartialEq, Eq, Debug, Structural)]
pub enum InterruptMirror {
    MirrorOn,
    MirrorOff,
}

impl InterruptMirror {
    /// The byte mask of the mode: OR-ed in to switch mirroring on, AND-ed in to switch it off.
    pub open spec fn mask(self) -> u8 {
        match self {
            InterruptMirror::MirrorOn => 0b0100_0000,
            InterruptMirror::MirrorOff => 0b1011_1111,
        }
    }

    /// The byte mask of the mode: OR-ed in to switch mirroring on, AND-ed in to switch it off.
    pub fn value(&self) -> (r: u8)
        ensures
            r == self.mask(),
    {
        match self {
            InterruptMirror::MirrorOn => 0b0100_0000,
            InterruptMirror::MirrorOff => 0b1011_1111,
        }
    }
}

} // verus!
