use iced_disasm::numeral::parse_u32;
use iced_disasm::numeral::parse_u64;

#[test]
fn parses_plain_numerals() {
    assert_eq!(parse_u64("0"), Some(0));
    assert_eq!(parse_u64("7"), Some(7));
    assert_eq!(parse_u64("4096"), Some(4096));
    assert_eq!(parse_u64("007"), Some(7));
}

#[test]
fn parses_leading_plus() {
    assert_eq!(parse_u64("+123"), Some(123));
    assert_eq!(parse_u32("+64"), Some(64));
}

#[test]
fn rejects_malformed_numerals() {
    assert_eq!(parse_u64(""), None);
    assert_eq!(parse_u64("+"), None);
    assert_eq!(parse_u64("-5"), None);
    assert_eq!(parse_u64("++1"), None);
    assert_eq!(parse_u64("1 2"), None);
    assert_eq!(parse_u64("0x10"), None);
    assert_eq!(parse_u64("12a"), None);
}

#[test]
fn agrees_with_std_parse() {
    for s in ["", "+", "64", "+64", "-1", " 1", "18446744073709551615", "99"] {
        assert_eq!(parse_u64(s), s.parse::<u64>().ok(), "input {s:?}");
        assert_eq!(parse_u32(s), s.parse::<u32>().ok(), "input {s:?}");
    }
}

#[test]
fn rejects_overflow_at_the_bound() {
    assert_eq!(parse_u64("18446744073709551615"), Some(u64::MAX));
    assert_eq!(parse_u64("18446744073709551616"), None);
    assert_eq!(parse_u64("99999999999999999999999"), None);
    assert_eq!(parse_u32("4294967295"), Some(u32::MAX));
    assert_eq!(parse_u32("4294967296"), None);
}
