use menu_builder::data_types::{string_to_decimal, ErrorKind, ValidationError};
use menu_builder::money::{
    abs, amount_text, amount_text_2dp, checked_add, checked_sub, compare, le, lt, num_eq, parse_amount, Amount,
};
use menu_builder::text::{int_string, parse_i32_str, str_is_blank};

#[test]
fn parse_amount_reads_decimals() {
    let a = parse_amount("12.50").unwrap();
    assert_eq!(a.mantissa, 1250);
    assert_eq!(a.scale, 2);
    let b = parse_amount("-3").unwrap();
    assert_eq!(b.mantissa, -3);
    assert_eq!(b.scale, 0);
    assert!(parse_amount("abc").is_none());
    assert!(parse_amount("").is_none());
}

#[test]
fn amount_texts() {
    assert_eq!(amount_text(Amount::new(1250, 2)), "12.50");
    assert_eq!(amount_text(Amount::new(5, 0)), "5");
    assert_eq!(amount_text_2dp(Amount::new(5, 0)), "5.00");
    assert_eq!(amount_text_2dp(Amount::new(1234, 3)), "1.23");
}

#[test]
fn amount_texts_pad_and_sign() {
    assert_eq!(amount_text(Amount::new(0, 2)), "0.00");
    assert_eq!(amount_text(Amount::new(0, 0)), "0");
    assert_eq!(amount_text(Amount::new(5, 3)), "0.005");
    assert_eq!(amount_text(Amount::new(-5, 3)), "-0.005");
    assert_eq!(amount_text(Amount::new(-1200, 0)), "-1200");
}

#[test]
fn exact_sums_and_differences() {
    let d = checked_sub(Amount::new(1000, 2), Amount::new(250, 2)).unwrap();
    assert!(num_eq(d, Amount::new(750, 2)));
    assert_eq!(amount_text(d), "7.50");
    let s = checked_add(Amount::new(1, 0), Amount::new(5, 3)).unwrap();
    assert!(num_eq(s, Amount::new(1005, 3)));
}

#[test]
fn amount_arithmetic_and_order() {
    let a = Amount::new(150, 2);
    let b = Amount::new(25, 1);
    let s = checked_add(a, b).unwrap();
    assert_eq!(amount_text(s), "4.00");
    let d = checked_sub(a, b).unwrap();
    assert_eq!(amount_text(d), "-1.00");
    assert_eq!(amount_text(abs(d)), "1.00");
    assert_eq!(compare(a, b), -1);
    assert!(lt(a, b));
    assert!(le(a, a));
    assert!(num_eq(Amount::new(10, 1), Amount::new(1, 0)));
}

#[test]
fn integer_texts() {
    assert_eq!(int_string(-42), "-42");
    assert_eq!(int_string(0), "0");
    assert_eq!(parse_i32_str("+7"), Some(7));
    assert_eq!(parse_i32_str("-2147483648"), Some(i32::MIN));
    assert_eq!(parse_i32_str("2147483648"), None);
    assert_eq!(parse_i32_str(""), None);
    assert_eq!(parse_i32_str("1a"), None);
}

#[test]
fn blank_texts() {
    assert!(str_is_blank("  \t"));
    assert!(str_is_blank(""));
    assert!(!str_is_blank(" x "));
}

#[test]
fn string_to_decimal_reports_the_input() {
    let ok = string_to_decimal("8.25").unwrap();
    assert_eq!(ok.mantissa, 825);
    let err = string_to_decimal("eight").unwrap_err();
    assert!(err.starts_with("Failed to convert 'eight' to Decimal: "));
}

#[test]
fn validation_error_display() {
    let e = ValidationError::of_kind(ErrorKind::EmptyName, "Name cannot be empty".to_string());
    assert_eq!(e.kind(), ErrorKind::EmptyName);
    assert_eq!(e.to_display_string(), "Empty name: Name cannot be empty");
}
