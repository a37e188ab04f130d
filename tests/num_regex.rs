use gpui_form::num_regex::{NumberFormat, NumberPattern};
use gpui_form::NumRegex;
use rust_decimal::Decimal;

#[test]
fn test_signed_integers() {
    assert!(i32::validation_regex().is_match("123"));
    assert!(i32::validation_regex().is_match("-123"));
    assert!(i32::validation_regex().is_match("+123"));
    assert!(i32::validation_regex().is_match("0"));
    assert!(!i32::validation_regex().is_match("123.45"));
    assert!(!i32::validation_regex().is_match("abc"));
    assert!(!i32::validation_regex().is_match(""));
}

#[test]
fn test_unsigned_integers() {
    assert!(u32::validation_regex().is_match("123"));
    assert!(u32::validation_regex().is_match("0"));
    assert!(!u32::validation_regex().is_match("-123"));
    assert!(!u32::validation_regex().is_match("+123"));
    assert!(!u32::validation_regex().is_match("123.45"));
}

#[test]
fn test_floats() {
    let float = NumberPattern::new(NumberFormat::Float);
    assert!(float.is_match("123.45"));
    assert!(float.is_match("-123.45"));
    assert!(float.is_match("1.23e10"));
    assert!(float.is_match("1.23E-10"));
    assert!(float.is_match("inf"));
    assert!(float.is_match("nan"));
    assert!(float.is_match("123"));
    assert!(float.is_match(".5"));
    assert!(!float.is_match("123."));
}

#[test]
fn test_decimal() {
    assert!(Decimal::validation_regex().is_match("123.45"));
    assert!(Decimal::validation_regex().is_match("-123.45"));
    assert!(Decimal::validation_regex().is_match("1.23e10"));
    assert!(Decimal::validation_regex().is_match("0"));
    assert!(!Decimal::validation_regex().is_match("inf"));
    assert!(!Decimal::validation_regex().is_match("nan"));
}

#[test]
fn test_regex_compilation() {
    let _ = i32::validation_regex();
    let _ = u32::validation_regex();
    let _ = NumberPattern::new(NumberFormat::Float);
    let _ = Decimal::validation_regex();
}

#[test]
fn integer_patterns_accept_formatted_values_and_reject_decimal_points() {
    for v in [i64::MIN, -42, -1, 0, 1, 7, 10, 9_000, i64::MAX] {
        assert!(i64::validation_regex().is_match(&v.to_string()), "{}", v);
    }
    for v in [0u64, 1, 10, 305, u64::MAX] {
        assert!(u64::validation_regex().is_match(&v.to_string()), "{}", v);
    }
    for v in [i8::MIN, i8::MAX] {
        assert!(i8::validation_regex().is_match(&v.to_string()));
    }
    for t in ["1.0", "0.", ".5", "-3.25", "1.2.3"] {
        assert!(!i32::validation_regex().is_match(t), "{}", t);
        assert!(!usize::validation_regex().is_match(t), "{}", t);
    }
}

#[test]
fn float_pattern_accepts_formatted_values() {
    let float = NumberPattern::new(NumberFormat::Float);
    for v in [0.0f64, -1.5, 3.25, 1e300, -2.5e-8, 100.0] {
        assert!(float.is_match(&v.to_string()), "{}", v);
    }
    assert!(float.is_match("infinity"));
    assert!(float.is_match("-inf"));
    assert!(!float.is_match("Infinity"));
}

#[test]
fn leading_zeros_are_rejected_for_integers() {
    assert!(!i32::validation_regex().is_match("007"));
    assert!(!u8::validation_regex().is_match("01"));
    assert!(u8::validation_regex().is_match("0"));
}

#[test]
fn patterns_keep_their_source() {
    assert_eq!(u16::validation_regex().as_str(), "^(?:0|[1-9]\\d*)$");
    assert_eq!(i16::validation_regex().regex().as_str(), "^[+-]?(?:0|[1-9]\\d*)$");
}
