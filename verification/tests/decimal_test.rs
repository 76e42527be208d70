use mpi2p::decimal::{i64_to_text, parse_i64, parse_i64_or_zero};

#[test]
fn parse_plain_numbers() {
    assert_eq!(parse_i64("0"), Some(0));
    assert_eq!(parse_i64("3"), Some(3));
    assert_eq!(parse_i64("10"), Some(10));
    assert_eq!(parse_i64("1700000000"), Some(1700000000));
    assert_eq!(parse_i64("007"), Some(7));
}

#[test]
fn parse_signed_numbers() {
    assert_eq!(parse_i64("+5"), Some(5));
    assert_eq!(parse_i64("-5"), Some(-5));
    assert_eq!(parse_i64("-0"), Some(0));
}

#[test]
fn parse_the_limits() {
    assert_eq!(parse_i64("9223372036854775807"), Some(i64::MAX));
    assert_eq!(parse_i64("-9223372036854775808"), Some(i64::MIN));
    assert_eq!(parse_i64("9223372036854775808"), None);
    assert_eq!(parse_i64("-9223372036854775809"), None);
    assert_eq!(parse_i64("99999999999999999999999999"), None);
}

#[test]
fn parse_rejects_what_is_no_decimal() {
    assert_eq!(parse_i64(""), None);
    assert_eq!(parse_i64("+"), None);
    assert_eq!(parse_i64("-"), None);
    assert_eq!(parse_i64("abc"), None);
    assert_eq!(parse_i64(" 5"), None);
    assert_eq!(parse_i64("5 "), None);
    assert_eq!(parse_i64("1.5"), None);
    assert_eq!(parse_i64("--5"), None);
    assert_eq!(parse_i64("12a"), None);
    assert_eq!(parse_i64("٣"), None);
    assert_eq!(parse_i64("5é"), None);
}

#[test]
fn parse_agrees_with_the_standard_parser() {
    let samples = [
        "0", "1", "-1", "+1", "42", "-42", "", "x", "+", "-", "1x", "00", "-00012",
        "9223372036854775807", "9223372036854775808", "-9223372036854775808",
        "-9223372036854775809", "18446744073709551616", " 1", "1_000",
    ];
    for s in samples {
        assert_eq!(parse_i64(s), s.parse::<i64>().ok(), "{}", s);
    }
}

#[test]
fn parse_or_zero_defaults_to_zero() {
    assert_eq!(parse_i64_or_zero("12"), 12);
    assert_eq!(parse_i64_or_zero("-12"), -12);
    assert_eq!(parse_i64_or_zero("twelve"), 0);
    assert_eq!(parse_i64_or_zero(""), 0);
}

#[test]
fn render_writes_decimals() {
    assert_eq!(i64_to_text(0), "0");
    assert_eq!(i64_to_text(7), "7");
    assert_eq!(i64_to_text(10), "10");
    assert_eq!(i64_to_text(-1), "-1");
    assert_eq!(i64_to_text(1700000000), "1700000000");
    assert_eq!(i64_to_text(i64::MAX), "9223372036854775807");
    assert_eq!(i64_to_text(i64::MIN), "-9223372036854775808");
}

#[test]
fn render_then_parse_gives_the_number_back() {
    for n in [0i64, 1, -1, 9, 10, 99, 100, -100, 123456789, i64::MAX, i64::MIN, i64::MIN + 1] {
        assert_eq!(parse_i64(&i64_to_text(n)), Some(n));
        assert_eq!(i64_to_text(n), n.to_string());
    }
}
