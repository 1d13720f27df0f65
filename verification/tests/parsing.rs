use ppc_fpscr::error::FpscrError;
use ppc_fpscr::parse::parse_value;

const MALFORMED: Result<u64, FpscrError> = Err(FpscrError::MalformedValue);

#[test]
fn parses_with_prefix() {
    assert_eq!(parse_value("0x00020000"), Ok(0x0002_0000));
    assert_eq!(parse_value("0x00060000"), Ok(0x0006_0000));
    assert_eq!(parse_value("0x0"), Ok(0));
}

#[test]
fn parses_without_prefix() {
    assert_eq!(parse_value("20000"), Ok(0x0002_0000));
    assert_eq!(parse_value("20000"), parse_value("0x00020000"));
    assert_eq!(parse_value("20000"), parse_value("0000000000020000"));
}

#[test]
fn parses_both_letter_cases() {
    assert_eq!(parse_value("0xdeadBEEF"), Ok(0xdead_beef));
    assert_eq!(parse_value("ABCDEF"), Ok(0xabcdef));
    assert_eq!(parse_value("abcdef"), Ok(0xabcdef));
    assert_eq!(parse_value("0123456789"), Ok(0x0123456789));
}

#[test]
fn parses_the_largest_value() {
    assert_eq!(parse_value("ffffffffffffffff"), Ok(u64::MAX));
    assert_eq!(parse_value("0xFFFFFFFFFFFFFFFF"), Ok(u64::MAX));
    assert_eq!(parse_value("0x8000000000000000"), Ok(0x8000_0000_0000_0000));
}

#[test]
fn leading_zeros_do_not_count() {
    assert_eq!(parse_value("0x00000000000000000000000000000001"), Ok(1));
    assert_eq!(parse_value("000000000000000000ffffffffffffffff"), Ok(u64::MAX));
}

#[test]
fn accepts_a_plus_sign() {
    assert_eq!(parse_value("+1f"), Ok(0x1f));
    assert_eq!(parse_value("0x+1f"), Ok(0x1f));
}

#[test]
fn rejects_more_than_64_bits() {
    assert_eq!(parse_value("10000000000000000"), MALFORMED);
    assert_eq!(parse_value("0x10000000000000000"), MALFORMED);
    assert_eq!(parse_value("fffffffffffffffff"), MALFORMED);
    assert_eq!(parse_value("123456789abcdef0123456789"), MALFORMED);
}

#[test]
fn rejects_empty_text() {
    assert_eq!(parse_value(""), MALFORMED);
    assert_eq!(parse_value("0x"), MALFORMED);
    assert_eq!(parse_value("+"), MALFORMED);
    assert_eq!(parse_value("0x+"), MALFORMED);
}

#[test]
fn rejects_what_is_no_digit() {
    assert_eq!(parse_value("zzzz"), MALFORMED);
    assert_eq!(parse_value("0xzzzz"), MALFORMED);
    assert_eq!(parse_value("12g4"), MALFORMED);
    assert_eq!(parse_value("1234g"), MALFORMED);
    assert_eq!(parse_value(" 20000"), MALFORMED);
    assert_eq!(parse_value("20000 "), MALFORMED);
    assert_eq!(parse_value("2_0000"), MALFORMED);
    assert_eq!(parse_value("-1"), MALFORMED);
    assert_eq!(parse_value("++1"), MALFORMED);
    assert_eq!(parse_value("+0x1"), MALFORMED);
    assert_eq!(parse_value("x1"), MALFORMED);
    assert_eq!(parse_value("/"), MALFORMED);
    assert_eq!(parse_value(":"), MALFORMED);
    assert_eq!(parse_value("@"), MALFORMED);
    assert_eq!(parse_value("G"), MALFORMED);
    assert_eq!(parse_value("`"), MALFORMED);
}

#[test]
fn strips_the_prefix_once_and_in_lower_case_only() {
    assert_eq!(parse_value("0x0x1"), MALFORMED);
    assert_eq!(parse_value("0X1"), MALFORMED);
    assert_eq!(parse_value("00x1"), MALFORMED);
}

#[test]
fn rejects_text_outside_ascii() {
    assert_eq!(parse_value("0x12\u{e9}"), MALFORMED);
    assert_eq!(parse_value("\u{ff11}\u{ff12}"), MALFORMED);
    assert_eq!(parse_value("\u{e9}"), MALFORMED);
}

#[test]
fn agrees_with_the_standard_parser() {
    let samples = [
        "", "0", "1", "f", "F", "10", "ff", "0x10", "+7", "-7", "zz", "0x", "+", "1g",
        "ffffffffffffffff", "10000000000000000", "0000000000000000000", "dead beef", "DEADBEEF",
    ];
    for text in samples {
        let body = text.strip_prefix("0x").unwrap_or(text);
        let expected = u64::from_str_radix(body, 16).map_err(|_| FpscrError::MalformedValue);
        assert_eq!(parse_value(text), expected);
    }
}
