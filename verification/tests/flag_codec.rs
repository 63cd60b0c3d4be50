use dronecore::flags::{
    de_arm, de_dis, de_mode, ser_arm, ser_dis, ser_mode, ArmingFlags, DisableReasonsFlags,
    FlightModeFlags, ARMING_ALL, ARMING_MSP_ACTIVE, ARMING_OK_TO_ARM, DISABLE_ALL, DISABLE_BATTERY,
    DISABLE_MSP, DISABLE_THROTTLE, FLIGHT_MODE_ACRO, FLIGHT_MODE_ALL, FLIGHT_MODE_ANGLE,
    FLIGHT_MODE_HORIZON,
};

#[test]
fn flag_positions_are_the_wire_contract() {
    assert_eq!(FLIGHT_MODE_ANGLE, 1 << 0);
    assert_eq!(FLIGHT_MODE_HORIZON, 1 << 1);
    assert_eq!(FLIGHT_MODE_ACRO, 1 << 6);
    assert_eq!(FLIGHT_MODE_ALL, 0b100_0011);
    assert_eq!(ARMING_OK_TO_ARM, 1 << 0);
    assert_eq!(ARMING_MSP_ACTIVE, 1 << 2);
    assert_eq!(ARMING_ALL, 0b101);
    assert_eq!(DISABLE_THROTTLE, 1 << 0);
    assert_eq!(DISABLE_MSP, 1 << 1);
    assert_eq!(DISABLE_BATTERY, 1 << 2);
    assert_eq!(DISABLE_ALL, 0b111);
}

#[test]
fn decode_then_encode_keeps_recognized_bits_only() {
    assert_eq!(ser_mode(&de_mode(64)), 64);
    assert_eq!(ser_mode(&de_mode(0xffff_ffff)), 0x43);
    assert_eq!(ser_mode(&de_mode(0b1000)), 0);
    assert_eq!(ser_arm(&de_arm(0xffff_ffff)), 0x05);
    assert_eq!(ser_arm(&de_arm(0b10)), 0);
    assert_eq!(ser_dis(&de_dis(0xffff_ffff)), 0x07);
    assert_eq!(ser_dis(&de_dis(0b1000)), 0);
}

#[test]
fn decode_of_encode_gives_the_set_back() {
    for raw in 0u32..=0xff {
        let mode = de_mode(raw);
        assert_eq!(de_mode(ser_mode(&mode)), mode);
        let arm = de_arm(raw);
        assert_eq!(de_arm(ser_arm(&arm)), arm);
        let dis = de_dis(raw);
        assert_eq!(de_dis(ser_dis(&dis)), dis);
    }
}

#[test]
fn extra_high_bits_are_dropped() {
    for raw in 0u32..=0xff {
        let high = raw | 0xffff_ff00;
        assert_eq!(de_mode(high), de_mode(high & FLIGHT_MODE_ALL));
        assert_eq!(de_mode(high), de_mode(raw & FLIGHT_MODE_ALL));
        assert_eq!(de_arm(high), de_arm(high & ARMING_ALL));
        assert_eq!(de_dis(high), de_dis(high & DISABLE_ALL));
    }
    assert_eq!(de_mode(0x8000_0041), de_mode(0x41));
}

#[test]
fn decode_is_idempotent() {
    for raw in [0u32, 1, 2, 3, 0x40, 0x43, 0x80, 0xdead_beef, u32::MAX] {
        assert_eq!(de_mode(ser_mode(&de_mode(raw))), de_mode(raw));
        assert_eq!(de_arm(ser_arm(&de_arm(raw))), de_arm(raw));
        assert_eq!(de_dis(ser_dis(&de_dis(raw))), de_dis(raw));
    }
}

#[test]
fn empty_and_default_hold_no_flag() {
    assert_eq!(FlightModeFlags::empty().bits(), 0);
    assert_eq!(FlightModeFlags::default(), FlightModeFlags::empty());
    assert_eq!(ArmingFlags::default().bits(), 0);
    assert_eq!(DisableReasonsFlags::default().bits(), 0);
    assert_eq!(DisableReasonsFlags::empty(), DisableReasonsFlags::from_bits_truncate(0xf8));
}

#[test]
fn contains_tests_every_wanted_flag() {
    let mode = FlightModeFlags::from_bits_truncate(FLIGHT_MODE_ANGLE | FLIGHT_MODE_ACRO);
    assert!(mode.contains(FLIGHT_MODE_ANGLE));
    assert!(mode.contains(FLIGHT_MODE_ACRO));
    assert!(mode.contains(FLIGHT_MODE_ANGLE | FLIGHT_MODE_ACRO));
    assert!(!mode.contains(FLIGHT_MODE_HORIZON));
    assert!(!mode.contains(FLIGHT_MODE_ALL));
    assert!(mode.contains(0));
    let arm = ArmingFlags::from_bits_truncate(1);
    assert!(arm.contains(ARMING_OK_TO_ARM));
    assert!(!arm.contains(ARMING_MSP_ACTIVE));
    let dis = DisableReasonsFlags::from_bits_truncate(6);
    assert!(dis.contains(DISABLE_MSP | DISABLE_BATTERY));
    assert!(!dis.contains(DISABLE_THROTTLE));
}
