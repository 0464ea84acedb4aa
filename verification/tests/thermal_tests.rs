use sysmon_core::thermal::{parse_millideg, parse_thermal_zone};

#[test]
fn sysfs_millidegrees_parse() {
    // A thermal zone temp file holding 45231 yields 45.231 degrees Celsius.
    let t = parse_thermal_zone("cpu".to_string(), b"45231\n").unwrap();
    assert_eq!(t.label, "cpu");
    assert_eq!(t.temp_millic, 45231);
    assert_eq!(t.critical_millic, None);
    let celsius = t.temp_millic as f32 / 1000.0;
    assert!((celsius - 45.231).abs() < 1e-3);
}

#[test]
fn plain_number_parses() {
    assert_eq!(parse_millideg(b"45231"), Some(45231));
    assert_eq!(parse_millideg(b"0"), Some(0));
}

#[test]
fn whitespace_is_trimmed() {
    assert_eq!(parse_millideg(b"  42000\t\n"), Some(42000));
    assert_eq!(parse_millideg(b"\n7\n"), Some(7));
}

#[test]
fn negative_values_parse() {
    assert_eq!(parse_millideg(b"-5000\n"), Some(-5000));
}

#[test]
fn non_numeric_is_rejected() {
    assert_eq!(parse_millideg(b""), None);
    assert_eq!(parse_millideg(b"   "), None);
    assert_eq!(parse_millideg(b"abc"), None);
    assert_eq!(parse_millideg(b"45.2"), None);
    assert_eq!(parse_millideg(b"-"), None);
    assert_eq!(parse_millideg(b"4 2"), None);
    assert_eq!(parse_millideg(b"--4"), None);
}

#[test]
fn out_of_range_is_rejected() {
    assert_eq!(parse_millideg(b"9223372036854775807"), Some(i64::MAX));
    assert_eq!(parse_millideg(b"9223372036854775808"), None);
    assert_eq!(parse_millideg(b"-9223372036854775807"), Some(-i64::MAX));
    assert_eq!(parse_millideg(b"99999999999999999999999"), None);
}

#[test]
fn unparsable_zone_is_skipped() {
    assert!(parse_thermal_zone("x".to_string(), b"not-a-number").is_none());
}
