use video_encode::text::{decimal_text, index_text, is_decimal_text, parse_number};

#[test]
fn video_it_works() {
    assert_eq!(parse_number("-1", "err"), Err("err"));
    assert_eq!(parse_number("0", "err"), Ok(0));
    assert_eq!(parse_number("255", "err"), Ok(255));
    assert_eq!(parse_number("256", "err"), Err("err"));
    assert_eq!(parse_number("a", "err"), Err("err"));
    assert_eq!(parse_number("", "err"), Err("err"));
}

#[test]
fn parse_number_accepts_plus_and_leading_zeros() {
    assert_eq!(parse_number("+7", ()), Ok(7));
    assert_eq!(parse_number("0007", ()), Ok(7));
    assert_eq!(parse_number("+", ()), Err(()));
    assert_eq!(parse_number("1000", ()), Err(()));
    assert_eq!(parse_number("12a", ()), Err(()));
    assert_eq!(parse_number("\u{0661}", ()), Err(()));
}

#[test]
fn decimal_text_renders() {
    assert_eq!(decimal_text(0), "0");
    assert_eq!(decimal_text(55), "55");
    assert_eq!(decimal_text(u64::MAX), "18446744073709551615");
    assert_eq!(index_text(0), "0");
    assert_eq!(index_text(1203), "1203");
}

#[test]
fn decimal_shape() {
    assert!(is_decimal_text("95"));
    assert!(is_decimal_text("95.47"));
    assert!(!is_decimal_text(""));
    assert!(!is_decimal_text("."));
    assert!(!is_decimal_text("9."));
    assert!(!is_decimal_text(".5"));
    assert!(!is_decimal_text("1.2.3"));
    assert!(!is_decimal_text("1e3"));
    assert!(!is_decimal_text("\u{0669}5"));
}
