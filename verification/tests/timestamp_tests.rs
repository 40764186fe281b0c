use xentrace_decode::timestamp::{
    make_calibration_constant, parse_override_hz, resolve_frequency, tsc_to_ns, DEFAULT_CPU_HZ,
};

#[test]
fn frequency_override_gigahertz() {
    assert_eq!(resolve_frequency(Some("2G")), 2_000_000_000);
}

#[test]
fn frequency_override_megahertz() {
    assert_eq!(resolve_frequency(Some("500M")), 500_000_000);
}

#[test]
fn frequency_override_kilohertz() {
    assert_eq!(resolve_frequency(Some("750K")), 750_000);
}

#[test]
fn frequency_override_plain_hertz() {
    assert_eq!(resolve_frequency(Some("1234567")), 1_234_567);
}

#[test]
fn frequency_override_fractional() {
    assert_eq!(resolve_frequency(Some("2.5G")), 2_500_000_000);
    assert_eq!(resolve_frequency(Some(".5G")), 500_000_000);
    assert_eq!(resolve_frequency(Some("2.G")), 2_000_000_000);
    assert_eq!(resolve_frequency(Some("1.5")), 1);
    assert_eq!(resolve_frequency(Some("0.0009K")), 0);
}

#[test]
fn frequency_override_invalid_falls_back() {
    assert_eq!(resolve_frequency(Some("bogus")), DEFAULT_CPU_HZ);
    assert_eq!(resolve_frequency(Some("")), DEFAULT_CPU_HZ);
    assert_eq!(resolve_frequency(Some(".")), DEFAULT_CPU_HZ);
    assert_eq!(resolve_frequency(Some("2..5G")), DEFAULT_CPU_HZ);
    assert_eq!(resolve_frequency(Some("2Gz")), DEFAULT_CPU_HZ);
    assert_eq!(resolve_frequency(Some("G")), DEFAULT_CPU_HZ);
    assert_eq!(resolve_frequency(Some("1e5")), DEFAULT_CPU_HZ);
    assert_eq!(resolve_frequency(Some("-5")), DEFAULT_CPU_HZ);
    assert_eq!(resolve_frequency(Some("2g")), DEFAULT_CPU_HZ);
}

#[test]
fn frequency_override_unset_defaults() {
    assert_eq!(resolve_frequency(None), DEFAULT_CPU_HZ);
    assert_eq!(DEFAULT_CPU_HZ, 2_400_000_000);
}

#[test]
fn frequency_override_saturates() {
    assert_eq!(resolve_frequency(Some("99999999999999999999G")), u64::MAX);
    assert_eq!(parse_override_hz(b"18446744073709551615"), Some(u64::MAX));
    assert_eq!(parse_override_hz(b"18446744073709551616"), Some(u64::MAX));
}

#[test]
fn parse_override_rejects_non_numbers() {
    assert_eq!(parse_override_hz(b"fast"), None);
    assert_eq!(parse_override_hz(b""), None);
    assert_eq!(parse_override_hz(b"\xFF3"), None);
}

#[test]
fn calibration_constant_for_default_frequency() {
    // 2.4e9 Hz * 1024 / 1e9, truncated to an integer.
    assert_eq!(make_calibration_constant(2_400_000_000), 2457);
    assert_eq!(make_calibration_constant(1_000_000_000), 1024);
    assert_eq!(make_calibration_constant(0), 0);
}

#[test]
fn ticks_to_ns_exact_microsecond() {
    // 2400 ticks at the default 2.4 GHz are exactly one microsecond.
    let qhz = make_calibration_constant(2_400_000_000);
    assert_eq!(tsc_to_ns(10_000 + 2400, qhz, Some(10_000)), 1000);
}

#[test]
fn ticks_to_ns_origin_is_zero() {
    let qhz = make_calibration_constant(2_400_000_000);
    assert_eq!(tsc_to_ns(77, qhz, Some(77)), 0);
}

#[test]
fn ticks_to_ns_without_origin_uses_raw_ticks() {
    assert_eq!(tsc_to_ns(2457, 2457, None), 1);
    assert_eq!(tsc_to_ns(0, 2457, None), 0);
}

#[test]
fn ticks_to_ns_zero_constant_is_defined() {
    assert_eq!(tsc_to_ns(5, 0, Some(5)), 0);
    assert_eq!(tsc_to_ns(6, 0, Some(5)), i64::MAX);
}

#[test]
fn ticks_to_ns_wraparound_is_surfaced() {
    // A tick below the origin wraps around the 64-bit counter.
    let expected = ((u64::MAX as u128) * 1024 / 2457) as i64;
    assert_eq!(tsc_to_ns(0, 2457, Some(1)), expected);
}
