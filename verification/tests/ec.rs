use lecoo_control::ec::device::is_plausible_temperature;
use lecoo_control::ec::n161a_charge_hold::hold_target;

#[test]
fn hram_temperature_heuristic_accepts_safe_high_load_values() {
    assert!(!is_plausible_temperature(0x10));
    assert!(is_plausible_temperature(0x11));
    assert!(is_plausible_temperature(80));
    assert!(is_plausible_temperature(89));
    assert!(is_plausible_temperature(110));
    assert!(!is_plausible_temperature(111));
    assert!(!is_plausible_temperature(u8::MAX));
}

#[test]
fn rejects_outside_confirmed_range() {
    assert!(hold_target(0x05, 61).is_err());
    assert!(hold_target(0x05, 85).is_err());
}

#[test]
fn prelatches_lower_band() {
    assert_eq!(hold_target(0x01, 62).unwrap(), 0x17);
    assert_eq!(hold_target(0x01, 75).unwrap(), 0x17);
}

#[test]
fn uses_native_entry_in_upper_band() {
    assert_eq!(hold_target(0x01, 76).unwrap(), 0x13);
    assert_eq!(hold_target(0x01, 84).unwrap(), 0x13);
}
