use adxl345_driver::{ATStatus, ActivityMode, IntControlMode, IntMapMode, IntSource, TapMode};

#[test]
fn tap_mode_accepts_named_bits_only() {
    for b in 0..=255u8 {
        match TapMode::from_bits(b) {
            Some(mode) => {
                assert!(b <= 0x0f);
                assert_eq!(mode.bits(), b);
            }
            None => assert!(b > 0x0f),
        }
    }
}

#[test]
fn activity_status_accepts_named_bits_only() {
    for b in 0..=255u8 {
        match ATStatus::from_bits(b) {
            Some(status) => {
                assert!(b <= 0x7f);
                assert_eq!(status.bits(), b);
            }
            None => assert!(b > 0x7f),
        }
    }
}

#[test]
fn full_flag_sets_accept_every_byte() {
    for b in 0..=255u8 {
        assert_eq!(ActivityMode::from_bits(b).unwrap().bits(), b);
        assert_eq!(IntControlMode::from_bits(b).unwrap().bits(), b);
        assert_eq!(IntMapMode::from_bits(b).unwrap().bits(), b);
        assert_eq!(IntSource::from_bits(b).unwrap().bits(), b);
    }
}

#[test]
fn union_joins_flags() {
    let x = TapMode::from_bits(TapMode::X_ENABLE).unwrap();
    let z = TapMode::from_bits(TapMode::Z_ENABLE).unwrap();
    let both = x.union(z);
    assert_eq!(both.bits(), 0x05);
    assert!(both.contains(x));
    assert!(both.contains(z));
    assert!(!x.contains(z));
    assert!(!both.contains(TapMode::from_bits(TapMode::DT_DISABLE).unwrap()));
}

#[test]
fn union_stays_inside_the_mask() {
    for a in 0..=0x0fu8 {
        for b in 0..=0x0fu8 {
            let joined = TapMode::from_bits(a).unwrap().union(TapMode::from_bits(b).unwrap());
            assert_eq!(joined.bits(), a | b);
            assert!(TapMode::from_bits(joined.bits()).is_some());
        }
    }
}

#[test]
fn empty_and_all() {
    assert_eq!(TapMode::empty().bits(), 0x00);
    assert_eq!(TapMode::all().bits(), 0x0f);
    assert_eq!(ATStatus::empty().bits(), 0x00);
    assert_eq!(ATStatus::all().bits(), 0x7f);
    assert_eq!(ActivityMode::all().bits(), 0xff);
    assert_eq!(IntControlMode::all().bits(), 0xff);
    assert_eq!(IntMapMode::all().bits(), 0xff);
    assert_eq!(IntSource::all().bits(), 0xff);
    assert_eq!(ActivityMode::default(), ActivityMode::empty());
    assert_eq!(IntControlMode::default().bits(), 0);
    assert_eq!(IntMapMode::default().bits(), 0);
    assert_eq!(IntSource::default().bits(), 0);
    assert_eq!(TapMode::default().bits(), 0);
}

#[test]
fn named_flags_have_their_datasheet_bits() {
    assert_eq!(ActivityMode::ACT_AC, 0x80);
    assert_eq!(ActivityMode::ACT_X_ENABLE, 0x40);
    assert_eq!(ActivityMode::ACT_Y_ENABLE, 0x20);
    assert_eq!(ActivityMode::ACT_Z_ENABLE, 0x10);
    assert_eq!(ActivityMode::INACT_AC, 0x08);
    assert_eq!(ActivityMode::INACT_X_ENABLE, 0x04);
    assert_eq!(ActivityMode::INACT_Y_ENABLE, 0x02);
    assert_eq!(ActivityMode::INACT_Z_ENABLE, 0x01);
    assert_eq!(ATStatus::ACT_X, 0x40);
    assert_eq!(ATStatus::ASLEEP, 0x08);
    assert_eq!(ATStatus::TAP_Z, 0x01);
    assert_eq!(IntControlMode::DATA_READY_ENABLE, 0x80);
    assert_eq!(IntControlMode::OVERRUN_ENABLE, 0x01);
    assert_eq!(IntMapMode::SINGLE_TAP_INT2, 0x40);
    assert_eq!(IntMapMode::WATERMARK_INT1, 0x00);
    assert_eq!(IntSource::FREE_FALL, 0x04);
    assert_eq!(TapMode::DT_DISABLE, 0x08);
    assert_eq!(TapMode::Y_ENABLE, 0x02);
}
