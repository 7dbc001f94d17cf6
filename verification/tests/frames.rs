use adxl345_driver::spi::{Bus, BusParams, SlaveSelect};
use adxl345_driver::{i2c, register, spi, wire, AdxlError, Tap};

#[test]
fn spi_access_sends_address_with_read_flag() {
    assert_eq!(spi::access_frame(0x00), Ok([0x80, 0x00]));
    assert_eq!(spi::access_frame(0x2d), Ok([0xad, 0x00]));
    assert_eq!(spi::access_frame(0x7f), Ok([0xff, 0x00]));
}

#[test]
fn spi_access_returns_second_received_byte() {
    assert_eq!(spi::access_reply(&[0x12, 0xe5]), 0xe5);
}

#[test]
fn spi_command_sends_address_and_data() {
    assert_eq!(spi::command_frame(0x1d, 0x20), Ok([0x1d, 0x20]));
}

#[test]
fn spi_refuses_addresses_that_need_bit_seven() {
    assert_eq!(spi::access_frame(0x80), Err(AdxlError::IllegalWriteAddress(0x80)));
    assert_eq!(spi::command_frame(0xff, 0x01), Err(AdxlError::IllegalWriteAddress(0xff)));
}

#[test]
fn spi_acceleration_sends_burst_read_of_data_registers() {
    assert_eq!(spi::acceleration_frame(), [0x32 | 0xc0, 0, 0, 0, 0, 0, 0]);
    assert_eq!(spi::acceleration_frame()[0], 0xf2);
}

#[test]
fn spi_acceleration_decodes_bytes_after_the_first() {
    let received = [0xaa, 0x01, 0x00, 0xff, 0xff, 0x34, 0x12];
    assert_eq!(spi::acceleration_reply(&received), (1, -1, 0x1234));
}

#[test]
fn i2c_acceleration_decodes_little_endian_counts() {
    assert_eq!(i2c::acceleration_reply(&[0x01, 0x00, 0xff, 0xff, 0x00, 0x80]), (1, -1, -32768));
    assert_eq!(i2c::acceleration_reply(&[0xff, 0x7f, 0x00, 0x01, 0xfe, 0xff]), (32767, 256, -2));
}

#[test]
fn i2c_constants() {
    assert_eq!(i2c::ACCELERATION_START, 0x32);
    assert_eq!(i2c::DEFAULT_ADDRESS, 0x53);
    assert_eq!(i2c::ALT_ADDRESS, 0x1d);
}

#[test]
fn counts_agree_with_std_for_every_pair() {
    for low in 0..=255u8 {
        for high in 0..=255u8 {
            assert_eq!(wire::i16_from_le(low, high), i16::from_le_bytes([low, high]));
        }
    }
}

#[test]
fn offsets_are_twos_complement() {
    assert_eq!(wire::to_signed(0x05), 5);
    assert_eq!(wire::to_signed(0xfd), -3);
    assert_eq!(wire::to_signed(0x80), -128);
    assert_eq!(wire::to_unsigned(-3), 0xfd);
    assert_eq!(wire::to_unsigned(127), 0x7f);
    for b in 0..=255u8 {
        assert_eq!(wire::to_signed(b), b as i8);
        assert_eq!(wire::to_unsigned(wire::to_signed(b)), b);
    }
}

#[test]
fn bus_errors_keep_their_transport() {
    assert_eq!(i2c::bus_error("nack".to_string()), AdxlError::I2c("nack".to_string()));
    assert_eq!(spi::bus_error("nack".to_string()), AdxlError::Spi("nack".to_string()));
    assert_ne!(i2c::bus_error("nack".to_string()), spi::bus_error("nack".to_string()));
}

#[test]
fn bus_params_accept_indices_up_to_two() {
    assert_eq!(
        BusParams::new(1, 2, 500_000, true),
        Ok(BusParams {
            bus: Bus::Spi1,
            slave_select: SlaveSelect::Ss2,
            clock_speed: 500_000,
            three_wire: true
        })
    );
    assert_eq!(BusParams::new(3, 0, 1_000_000, false), Err(AdxlError::InvalidBusParams));
    assert_eq!(BusParams::new(0, 3, 1_000_000, false), Err(AdxlError::InvalidBusParams));
}

#[test]
fn default_bus_params() {
    assert_eq!(BusParams::default(), BusParams::new(0, 0, 1_000_000, false).unwrap());
}

#[test]
fn writable_registers() {
    for address in 0..=255u8 {
        let expected = matches!(address, 0x1d..=0x2a | 0x2c..=0x2f | 0x31 | 0x38);
        assert_eq!(register::writable(address), expected);
    }
}

#[test]
fn tap_from_tuple_and_array() {
    let tap = Tap::new(1, 2, 3, 4);
    assert_eq!(Tap::from((1, 2, 3, 4)), tap);
    assert_eq!(Tap::from([1, 2, 3, 4]), tap);
    assert_eq!((tap.threshold, tap.duration, tap.latency, tap.window), (1, 2, 3, 4));
}
