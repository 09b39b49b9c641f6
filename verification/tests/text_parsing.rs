use illuvi_analytics::env_utils::{as_parsed, EnvValue};
use illuvi_analytics::text::{decimal_text, parse_bool, parse_i32, parse_u16, same_text};

#[test]
fn parse_i32_reads_plain_and_signed_numbers() {
    assert_eq!(parse_i32("123"), Some(123));
    assert_eq!(parse_i32("+5"), Some(5));
    assert_eq!(parse_i32("-42"), Some(-42));
    assert_eq!(parse_i32("-0"), Some(0));
    assert_eq!(parse_i32("007"), Some(7));
}

#[test]
fn parse_i32_accepts_the_bounds_of_i32() {
    assert_eq!(parse_i32("2147483647"), Some(i32::MAX));
    assert_eq!(parse_i32("-2147483648"), Some(i32::MIN));
}

#[test]
fn parse_i32_refuses_overflow() {
    assert_eq!(parse_i32("2147483648"), None);
    assert_eq!(parse_i32("-2147483649"), None);
    assert_eq!(parse_i32("99999999999999999999"), None);
}

#[test]
fn parse_i32_refuses_malformed_text() {
    assert_eq!(parse_i32(""), None);
    assert_eq!(parse_i32("-"), None);
    assert_eq!(parse_i32("+"), None);
    assert_eq!(parse_i32("12a"), None);
    assert_eq!(parse_i32(" 1"), None);
    assert_eq!(parse_i32("1 "), None);
    assert_eq!(parse_i32("--1"), None);
    assert_eq!(parse_i32("\u{661}"), None);
}

#[test]
fn parse_i32_agrees_with_std() {
    for s in ["0", "1", "-1", "+0", "65535", "-2147483648", "2147483648", "x", "", "+-1", "00000000000000000001"] {
        assert_eq!(parse_i32(s), s.parse::<i32>().ok(), "{}", s);
    }
}

#[test]
fn parse_u16_reads_ports() {
    assert_eq!(parse_u16("5432"), Some(5432));
    assert_eq!(parse_u16("+80"), Some(80));
    assert_eq!(parse_u16("65535"), Some(65535));
    assert_eq!(parse_u16("65536"), None);
    assert_eq!(parse_u16("-1"), None);
    assert_eq!(parse_u16("-0"), None);
    assert_eq!(parse_u16(""), None);
}

#[test]
fn parse_u16_agrees_with_std() {
    for s in ["0", "1", "-0", "+0", "65535", "65536", "x", "", "+", "0000065535"] {
        assert_eq!(parse_u16(s), s.parse::<u16>().ok(), "{}", s);
    }
}

#[test]
fn parse_bool_reads_only_true_and_false() {
    assert_eq!(parse_bool("true"), Some(true));
    assert_eq!(parse_bool("false"), Some(false));
    assert_eq!(parse_bool("True"), None);
    assert_eq!(parse_bool("1"), None);
    assert_eq!(parse_bool(""), None);
    assert_eq!(parse_bool("true "), None);
}

#[test]
fn same_text_compares_characters() {
    assert!(same_text("abc", "abc"));
    assert!(!same_text("abc", "abd"));
    assert!(!same_text("abc", "ab"));
    assert!(same_text("", ""));
}

#[test]
fn decimal_text_writes_like_format() {
    for v in [0, 7, 10, 42, -1, -10, 123456789, i32::MAX, i32::MIN] {
        assert_eq!(decimal_text(v), format!("{}", v));
    }
}

#[test]
fn decimal_text_round_trips_through_parse_i32() {
    for v in [0, 9, -9, 1000, -2147483647, i32::MAX, i32::MIN] {
        assert_eq!(parse_i32(&decimal_text(v)), Some(v));
    }
}

#[test]
fn as_parsed_reads_flags_and_ports() {
    assert!(as_parsed::<bool>("true"));
    assert!(!as_parsed::<bool>("false"));
    assert_eq!(as_parsed::<u16>("5432"), 5432);
    assert_eq!(as_parsed::<i32>("-3"), -3);
}

#[test]
fn env_values_report_unreadable_text() {
    assert_eq!(<bool as EnvValue>::parse_value("yes"), None);
    assert_eq!(<u16 as EnvValue>::parse_value("70000"), None);
    assert_eq!(<i32 as EnvValue>::parse_value("1.5"), None);
}
