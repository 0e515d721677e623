use sql_scaler::parse_i64;

#[test]
fn parses_plain_integer() {
    assert_eq!(parse_i64("7"), Some(7));
}

#[test]
fn parses_negative_integer() {
    assert_eq!(parse_i64("-12"), Some(-12));
}

#[test]
fn parses_plus_sign() {
    assert_eq!(parse_i64("+5"), Some(5));
}

#[test]
fn parses_leading_zeros() {
    assert_eq!(parse_i64("007"), Some(7));
}

#[test]
fn parses_zero_and_negative_zero() {
    assert_eq!(parse_i64("0"), Some(0));
    assert_eq!(parse_i64("-0"), Some(0));
}

#[test]
fn parses_extreme_values() {
    assert_eq!(parse_i64("9223372036854775807"), Some(i64::MAX));
    assert_eq!(parse_i64("-9223372036854775808"), Some(i64::MIN));
}

#[test]
fn rejects_out_of_range_values() {
    assert_eq!(parse_i64("9223372036854775808"), None);
    assert_eq!(parse_i64("-9223372036854775809"), None);
    assert_eq!(parse_i64("99999999999999999999999999"), None);
}

#[test]
fn rejects_empty_and_bare_signs() {
    assert_eq!(parse_i64(""), None);
    assert_eq!(parse_i64("-"), None);
    assert_eq!(parse_i64("+"), None);
}

#[test]
fn rejects_non_numeric_text() {
    assert_eq!(parse_i64("abc"), None);
    assert_eq!(parse_i64("12x"), None);
    assert_eq!(parse_i64(" 7"), None);
    assert_eq!(parse_i64("7 "), None);
    assert_eq!(parse_i64("7.5"), None);
    assert_eq!(parse_i64("--7"), None);
}

#[test]
fn rejects_non_ascii_text() {
    assert_eq!(parse_i64("七"), None);
    assert_eq!(parse_i64("²"), None);
}
