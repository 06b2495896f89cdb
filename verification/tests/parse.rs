//! Tests for the verified numeric parsers.

use exc_core::num::{parse_decimal, parse_digits};
use exc_core::types::Decimal;

#[test]
fn parse_digits_timestamp() {
    assert_eq!(parse_digits("1597026383085"), Some(1597026383085));
}

#[test]
fn parse_digits_zero() {
    assert_eq!(parse_digits("0"), Some(0));
}

#[test]
fn parse_digits_max_value() {
    assert_eq!(parse_digits("9223372036854775807"), Some(i64::MAX));
}

#[test]
fn parse_digits_overflow_rejected() {
    assert_eq!(parse_digits("9223372036854775808"), None);
    assert_eq!(parse_digits("99999999999999999999999"), None);
}

#[test]
fn parse_digits_rejects_empty_and_nondigits() {
    assert_eq!(parse_digits(""), None);
    assert_eq!(parse_digits("12a3"), None);
    assert_eq!(parse_digits("-5"), None);
    assert_eq!(parse_digits(" 5"), None);
}

#[test]
fn parse_decimal_plain_digits() {
    assert_eq!(parse_decimal("12345"), Some(Decimal { mantissa: 12345, scale: 0 }));
}

#[test]
fn parse_decimal_with_point() {
    assert_eq!(parse_decimal("123.45"), Some(Decimal { mantissa: 12345, scale: 2 }));
    assert_eq!(parse_decimal("9999.9"), Some(Decimal { mantissa: 99999, scale: 1 }));
    assert_eq!(parse_decimal("0.1"), Some(Decimal { mantissa: 1, scale: 1 }));
}

#[test]
fn parse_decimal_point_at_either_end() {
    assert_eq!(parse_decimal(".5"), Some(Decimal { mantissa: 5, scale: 1 }));
    assert_eq!(parse_decimal("1."), Some(Decimal { mantissa: 1, scale: 0 }));
}

#[test]
fn parse_decimal_rejects_bad_shapes() {
    assert_eq!(parse_decimal(""), None);
    assert_eq!(parse_decimal("."), None);
    assert_eq!(parse_decimal("1.2.3"), None);
    assert_eq!(parse_decimal("1,2"), None);
    assert_eq!(parse_decimal("a.5"), None);
}

#[test]
fn parse_decimal_overflow_rejected() {
    assert_eq!(parse_decimal("92233720368547758.08"), None);
}
