use fortnox::text::{decimal_text, parse_u32};

#[test]
fn decimal_text_of_numbers() {
    assert_eq!(decimal_text(0), "0");
    assert_eq!(decimal_text(7), "7");
    assert_eq!(decimal_text(10), "10");
    assert_eq!(decimal_text(400), "400");
    assert_eq!(decimal_text(2000106), "2000106");
    assert_eq!(decimal_text(u32::MAX), "4294967295");
}

#[test]
fn parse_u32_reads_numerals() {
    assert_eq!(parse_u32("0"), Some(0));
    assert_eq!(parse_u32("9"), Some(9));
    assert_eq!(parse_u32("2000106"), Some(2000106));
    assert_eq!(parse_u32("4294967295"), Some(u32::MAX));
}

#[test]
fn parse_u32_refuses_what_is_no_numeral() {
    assert_eq!(parse_u32(""), None);
    assert_eq!(parse_u32("4294967296"), None);
    assert_eq!(parse_u32("99999999999999999999999"), None);
    assert_eq!(parse_u32("-1"), None);
    assert_eq!(parse_u32("+1"), None);
    assert_eq!(parse_u32("1.0"), None);
    assert_eq!(parse_u32("1e3"), None);
    assert_eq!(parse_u32("01"), None);
    assert_eq!(parse_u32("00"), None);
    assert_eq!(parse_u32(" 1"), None);
    assert_eq!(parse_u32("12a"), None);
    assert_eq!(parse_u32("\u{0661}"), None);
}

#[test]
fn parse_u32_reads_back_decimal_text() {
    for n in [0u32, 1, 9, 10, 99, 100, 429, 65535, 2003399, u32::MAX - 1, u32::MAX] {
        assert_eq!(parse_u32(&decimal_text(n)), Some(n));
        assert_eq!(decimal_text(n), n.to_string());
    }
}
