use vital_monitor::number::parse_decimal;
use vital_monitor::text::{decimal_text, text_equals};
use vital_monitor::{AlertLevel, Metric, Percent, ReadError};

#[test]
fn decimal_rendering() {
    assert_eq!(decimal_text(0), "0");
    assert_eq!(decimal_text(7), "7");
    assert_eq!(decimal_text(10), "10");
    assert_eq!(decimal_text(1234567890), "1234567890");
    assert_eq!(decimal_text(u64::MAX), u64::MAX.to_string());
}

#[test]
fn text_comparison() {
    assert!(text_equals("", ""));
    assert!(text_equals("mode_list", "mode_list"));
    assert!(!text_equals("mode_list", "mode_lisT"));
    assert!(!text_equals("a", "ab"));
    assert!(text_equals("\u{1F535} x", "\u{1F535} x"));
}

#[test]
fn decimal_parsing() {
    assert_eq!(parse_decimal("14"), Some((14, false)));
    assert_eq!(parse_decimal("14.2"), Some((14, true)));
    assert_eq!(parse_decimal("14.000"), Some((14, false)));
    assert_eq!(parse_decimal("007"), Some((7, false)));
    assert_eq!(parse_decimal("18446744073709551616"), Some((u64::MAX, false)));
    assert_eq!(parse_decimal(""), None);
    assert_eq!(parse_decimal(".5"), None);
    assert_eq!(parse_decimal("5."), None);
    assert_eq!(parse_decimal("5.a"), None);
    assert_eq!(parse_decimal("-5"), None);
    assert_eq!(parse_decimal("5 "), None);
}

#[test]
fn read_error_conversions() {
    let io = std::io::Error::new(std::io::ErrorKind::TimedOut, "slow");
    assert!(matches!(ReadError::from(io), ReadError::Io(_)));
    let bad = String::from_utf8(vec![0xff]).unwrap_err();
    assert!(matches!(ReadError::from(bad), ReadError::Utf8(_)));
}

#[test]
fn metrics_compare_by_value_and_level() {
    assert_eq!(Metric::new(Percent(5), AlertLevel::Safe), Metric::new(Percent(5), AlertLevel::Safe));
    assert_ne!(Metric::new(Percent(5), AlertLevel::Safe), Metric::new(Percent(5), AlertLevel::Normal));
}
