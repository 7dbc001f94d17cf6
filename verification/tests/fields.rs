use adxl345_driver::{
    AdxlError, BandwidthRateControl, DataFormat, FifoControl, FifoStatus, PowerControl,
};

#[test]
fn power_control_rejects_bits_outside_mask() {
    assert_eq!(PowerControl::try_from(0xc0), Err(AdxlError::UnknownModeBit(0xc0)));
}

#[test]
fn power_control_decodes_link_and_measure() {
    let mode = PowerControl::try_from(0x28).unwrap();
    assert!(mode.link());
    assert!(mode.measure());
    assert!(!mode.auto_sleep());
    assert!(!mode.sleep());
    assert_eq!(mode.wakeup(), 0);
    assert_eq!(mode.byte(), 0x28);
}

#[test]
fn power_control_round_trips_every_byte() {
    for b in 0..=255u8 {
        match PowerControl::try_from(b) {
            Ok(mode) => {
                assert_eq!(b & !0x3f, 0);
                assert_eq!(mode.byte(), b);
            }
            Err(e) => {
                assert_ne!(b & !0x3f, 0);
                assert_eq!(e, AdxlError::UnknownModeBit(b));
            }
        }
    }
}

#[test]
fn bandwidth_rate_round_trips_every_byte() {
    for b in 0..=255u8 {
        match BandwidthRateControl::try_from(b) {
            Ok(mode) => {
                assert!(b <= 0x1f);
                assert_eq!(mode.byte(), b);
            }
            Err(e) => {
                assert!(b > 0x1f);
                assert_eq!(e, AdxlError::UnknownModeBit(b));
            }
        }
    }
}

#[test]
fn data_format_round_trips_every_byte() {
    for b in 0..=255u8 {
        match DataFormat::try_from(b) {
            Ok(mode) => {
                assert_eq!(b & 0x10, 0);
                assert_eq!(mode.byte(), b);
            }
            Err(e) => {
                assert_eq!(b & 0x10, 0x10);
                assert_eq!(e, AdxlError::UnknownModeBit(b));
            }
        }
    }
}

#[test]
fn fifo_status_round_trips_every_byte() {
    for b in 0..=255u8 {
        match FifoStatus::try_from(b) {
            Ok(mode) => {
                assert_eq!(b & 0x40, 0);
                assert_eq!(mode.byte(), b);
            }
            Err(e) => {
                assert_eq!(b & 0x40, 0x40);
                assert_eq!(e, AdxlError::UnknownModeBit(b));
            }
        }
    }
}

#[test]
fn fifo_control_accepts_every_byte() {
    for b in 0..=255u8 {
        assert_eq!(FifoControl::from(b).byte(), b);
    }
}

#[test]
fn bandwidth_rate_fields() {
    let mode = BandwidthRateControl::try_from(0x1a).unwrap();
    assert!(mode.low_power());
    assert_eq!(mode.rate(), 0x0a);
    let mode = BandwidthRateControl::try_from(0x0f).unwrap();
    assert!(!mode.low_power());
    assert_eq!(mode.rate(), 0x0f);
}

#[test]
fn data_format_fields() {
    let mode = DataFormat::try_from(0xcb).unwrap();
    assert!(mode.self_test());
    assert!(mode.spi());
    assert!(!mode.int_invert());
    assert!(mode.full_res());
    assert!(!mode.justify());
    assert_eq!(mode.range(), 3);
    let mode = DataFormat::try_from(0x24).unwrap();
    assert!(!mode.self_test());
    assert!(!mode.spi());
    assert!(mode.int_invert());
    assert!(!mode.full_res());
    assert!(mode.justify());
    assert_eq!(mode.range(), 0);
}

#[test]
fn fifo_control_fields() {
    let mode = FifoControl::from(0xbf);
    assert_eq!(mode.fifo_mode(), 2);
    assert!(mode.trigger());
    assert_eq!(mode.samples(), 31);
    let mode = FifoControl::from(0x41);
    assert_eq!(mode.fifo_mode(), 1);
    assert!(!mode.trigger());
    assert_eq!(mode.samples(), 1);
}

#[test]
fn fifo_status_fields() {
    let status = FifoStatus::try_from(0xa1).unwrap();
    assert!(status.fifo_trigger());
    assert_eq!(status.entries(), 33);
    let status = FifoStatus::try_from(0x3f).unwrap();
    assert!(!status.fifo_trigger());
    assert_eq!(status.entries(), 63);
}

#[test]
fn power_control_fields() {
    let mode = PowerControl::try_from(0x17).unwrap();
    assert!(!mode.link());
    assert!(mode.auto_sleep());
    assert!(!mode.measure());
    assert!(mode.sleep());
    assert_eq!(mode.wakeup(), 3);
}

#[test]
fn setters_write_one_field_and_keep_the_rest() {
    let mut mode = PowerControl::try_from(0x00).unwrap();
    mode.set_measure(true);
    assert_eq!(mode.byte(), 0x08);
    mode.set_link(true);
    assert_eq!(mode.byte(), 0x28);
    mode.set_wakeup(2);
    assert_eq!(mode.byte(), 0x2a);
    mode.set_measure(false);
    assert_eq!(mode.byte(), 0x22);
    mode.set_auto_sleep(true);
    mode.set_sleep(true);
    assert_eq!(mode.byte(), 0x36);

    let mut rate = BandwidthRateControl::try_from(0x0a).unwrap();
    rate.set_low_power(true);
    assert_eq!(rate.byte(), 0x1a);
    rate.set_rate(0x0d);
    assert_eq!(rate.byte(), 0x1d);

    let mut format = DataFormat::try_from(0x00).unwrap();
    format.set_full_res(true);
    format.set_range(1);
    assert_eq!(format.byte(), 0x09);
    format.set_spi(true);
    format.set_self_test(true);
    format.set_int_invert(true);
    format.set_justify(true);
    assert_eq!(format.byte(), 0xed);

    let mut fifo = FifoControl::from(0x00);
    fifo.set_fifo_mode(3);
    fifo.set_trigger(true);
    fifo.set_samples(16);
    assert_eq!(fifo.byte(), 0xf0);
}

#[test]
fn setters_drop_bits_above_the_field() {
    let mut mode = PowerControl::try_from(0x3c).unwrap();
    mode.set_wakeup(0xff);
    assert_eq!(mode.byte(), 0x3f);
    let mut rate = BandwidthRateControl::try_from(0x10).unwrap();
    rate.set_rate(0xf5);
    assert_eq!(rate.byte(), 0x15);
    let mut format = DataFormat::try_from(0x00).unwrap();
    format.set_range(0x16);
    assert_eq!(format.byte(), 0x02);
    let mut fifo = FifoControl::from(0xff);
    fifo.set_fifo_mode(0x05);
    assert_eq!(fifo.byte(), 0x7f);
}

#[test]
fn masks_are_the_documented_ones() {
    assert_eq!(BandwidthRateControl::MASK, 0x1f);
    assert_eq!(DataFormat::MASK, 0xef);
    assert_eq!(FifoControl::MASK, 0xff);
    assert_eq!(FifoStatus::MASK, 0xbf);
    assert_eq!(PowerControl::MASK, 0x3f);
}
