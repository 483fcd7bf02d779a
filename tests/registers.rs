use mcp23017::{
    bit_clear, bit_read, bit_set, convert_slave_address, i2c_comm_error, mask_to_pin,
    pin_mask_to_number, pin_number_to_mask, register_address, Error, InterruptMirror, MyPort,
    PinMask, PinNumber, PinSet, Register, SlaveAddressing,
};
use mcp23017::word::{join_bytes, port_value, set_mirror, set_pin_level, split};

const PINS: [PinNumber; 8] = [
    PinNumber::Pin0,
    PinNumber::Pin1,
    PinNumber::Pin2,
    PinNumber::Pin3,
    PinNumber::Pin4,
    PinNumber::Pin5,
    PinNumber::Pin6,
    PinNumber::Pin7,
];

#[test]
fn test_convert_slave_address() {
    assert_eq!(
        0x20,
        convert_slave_address(SlaveAddressing::Low, SlaveAddressing::Low, SlaveAddressing::Low)
    );
    assert_eq!(
        0x21,
        convert_slave_address(SlaveAddressing::Low, SlaveAddressing::Low, SlaveAddressing::High)
    );
    assert_eq!(
        0x22,
        convert_slave_address(SlaveAddressing::Low, SlaveAddressing::High, SlaveAddressing::Low)
    );
    assert_eq!(
        0x23,
        convert_slave_address(SlaveAddressing::Low, SlaveAddressing::High, SlaveAddressing::High)
    );
    assert_eq!(
        0x24,
        convert_slave_address(SlaveAddressing::High, SlaveAddressing::Low, SlaveAddressing::Low)
    );
    assert_eq!(
        0x25,
        convert_slave_address(SlaveAddressing::High, SlaveAddressing::Low, SlaveAddressing::High)
    );
    assert_eq!(
        0x26,
        convert_slave_address(SlaveAddressing::High, SlaveAddressing::High, SlaveAddressing::Low)
    );
    assert_eq!(
        0x27,
        convert_slave_address(SlaveAddressing::High, SlaveAddressing::High, SlaveAddressing::High)
    );
}

#[test]
fn strap_addresses_grow_with_the_pattern() {
    let levels = [SlaveAddressing::Low, SlaveAddressing::High];
    let mut previous: Option<u8> = None;
    for a0 in levels {
        for a1 in levels {
            for a2 in levels {
                let address = convert_slave_address(a0, a1, a2);
                assert!((0x20..=0x27).contains(&address));
                if let Some(p) = previous {
                    assert!(address > p);
                }
                previous = Some(address);
            }
        }
    }
    assert_eq!(Some(0x27), previous);
}

#[test]
fn test_bit_set() {
    let mut value = 0b00000000;

    value = bit_set(value, PinNumber::Pin7);

    println!("value 0b{:08b}", value);
    assert_eq!(0b10000000, value);
}

#[test]
fn test_bit_clear() {
    let mut value = 0b11111111;

    value = bit_clear(value, PinNumber::Pin7);

    println!("value 0b{:08b}", value);
    assert_eq!(0b01111111, value);
}

#[test]
fn test_bit_read() {
    let mut value = 0b10000000;

    value = bit_read(value, PinNumber::Pin7);

    println!("value 0b{:08b}", value);
    assert_eq!(0b00000001, value);
}

#[test]
fn set_and_clear_touch_only_their_bit() {
    for byte in [0x00u8, 0x5A, 0xA5, 0xFF] {
        for (i, pin) in PINS.iter().enumerate() {
            let set = bit_set(byte, *pin);
            let cleared = bit_clear(byte, *pin);
            assert_eq!(1, bit_read(set, *pin));
            assert_eq!(0, bit_read(cleared, *pin));
            for (j, other) in PINS.iter().enumerate() {
                if i != j {
                    assert_eq!(bit_read(byte, *other), bit_read(set, *other));
                    assert_eq!(bit_read(byte, *other), bit_read(cleared, *other));
                }
            }
        }
    }
    assert_eq!(0x5B, bit_set(0x5A, PinNumber::Pin0));
    assert_eq!(0x58, bit_clear(0x5A, PinNumber::Pin1));
    assert_eq!(1, bit_read(0x5A, PinNumber::Pin6));
    assert_eq!(0, bit_read(0x5A, PinNumber::Pin5));
}

#[test]
fn mask_round_trip() {
    for (i, pin) in PINS.iter().enumerate() {
        let mask = pin_number_to_mask(*pin);
        assert_eq!(1u8 << i, mask.value());
        assert_eq!(Some(*pin), pin_mask_to_number(mask));
        assert_eq!(Some(*pin), mask_to_pin(1u8 << i));
        assert_eq!(mask, PinMask::from(1u8 << i));
    }
    assert_eq!(PinMask::Pin4, pin_number_to_mask(PinNumber::Pin4));
}

#[test]
fn malformed_masks_have_no_pin() {
    assert_eq!(None, pin_mask_to_number(PinMask::Invalid));
    assert_eq!(None, mask_to_pin(0x00));
    assert_eq!(None, mask_to_pin(0x03));
    assert_eq!(None, mask_to_pin(0xFF));
    assert_eq!(PinMask::Invalid, PinMask::from(0x00));
    assert_eq!(PinMask::Invalid, PinMask::from(0x11));
    assert_eq!(PinMask::Pin7, PinMask::from(0x80));
}

#[test]
fn register_addresses_select_the_port() {
    assert_eq!(0x12, register_address(Register::Gpio, MyPort::Porta));
    assert_eq!(0x13, register_address(Register::Gpio, MyPort::Portb));
    assert_eq!(0x00, register_address(Register::Iodir, MyPort::Porta));
    assert_eq!(0x15, register_address(Register::Olat, MyPort::Portb));
    assert_eq!(0x0B, register_address(Register::Iocon, MyPort::Portb));
    assert_eq!(0x0E, Register::Intf.base());
}

#[test]
fn labels_and_messages() {
    assert_eq!("Gpio (0x12)", Register::Gpio.label());
    assert_eq!("Iocon (0x0A)", Register::Iocon.label());
    assert_eq!("Not found on address", Error::CommunicationErr.message());
    assert_eq!("Invalid Interrupt Setting", Error::InvalidInterruptSetting.message());
}

#[test]
fn any_bus_failure_is_a_communication_error() {
    assert_eq!(Error::CommunicationErr, i2c_comm_error(()));
    assert_eq!(Error::CommunicationErr, i2c_comm_error(7u32));
}

#[test]
fn register_pair_values_split_and_join() {
    assert_eq!((0xad, 0xde), split(0xdead));
    assert_eq!(0xdead, join_bytes(0xad, 0xde));
    assert_eq!(0x0001, join_bytes(0x01, 0x00));
    assert_eq!(0xad, port_value(0xdead, MyPort::Porta));
    assert_eq!(0xde, port_value(0xdead, MyPort::Portb));
    assert_eq!(0xfeff, set_pin_level(0xffff, MyPort::Portb, PinNumber::Pin0, PinSet::Low));
    assert_eq!(0xfffe, set_pin_level(0xffff, MyPort::Porta, PinNumber::Pin0, PinSet::Low));
    assert_eq!(0x0080, set_pin_level(0x0000, MyPort::Porta, PinNumber::Pin7, PinSet::High));
    assert_eq!(0x4040, set_mirror(0x0000, InterruptMirror::MirrorOn));
    assert_eq!(0xbfbf, set_mirror(0xffff, InterruptMirror::MirrorOff));
    assert_eq!(0x0000, set_mirror(0x4040, InterruptMirror::MirrorOff));
}

#[test]
fn port_and_strap_labels() {
    assert_eq!("Porta (0x00)", MyPort::Porta.label());
    assert_eq!("Portb (0x01)", MyPort::Portb.label());
    assert_eq!("High", SlaveAddressing::High.label());
    assert_eq!("Low", SlaveAddressing::Low.label());
}
