use gateway_stub::decimal::parse_u64;

#[test]
fn parse_u64_reads_plain_digits() {
    assert_eq!(parse_u64("0"), Some(0));
    assert_eq!(parse_u64("7"), Some(7));
    assert_eq!(parse_u64("42"), Some(42));
    assert_eq!(parse_u64("1234567890"), Some(1_234_567_890));
}

#[test]
fn parse_u64_accepts_one_leading_plus() {
    assert_eq!(parse_u64("+5"), Some(5));
    assert_eq!(parse_u64("++5"), None);
    assert_eq!(parse_u64("+"), None);
    assert_eq!(parse_u64("5+"), None);
}

#[test]
fn parse_u64_accepts_leading_zeros() {
    assert_eq!(parse_u64("007"), Some(7));
    assert_eq!(parse_u64("0000000000000000000000000000001"), Some(1));
}

#[test]
fn parse_u64_rejects_the_empty_text() {
    assert_eq!(parse_u64(""), None);
}

#[test]
fn parse_u64_rejects_what_is_not_a_digit() {
    assert_eq!(parse_u64("-1"), None);
    assert_eq!(parse_u64(" 1"), None);
    assert_eq!(parse_u64("1 "), None);
    assert_eq!(parse_u64("1_000"), None);
    assert_eq!(parse_u64("12a"), None);
    assert_eq!(parse_u64("0x10"), None);
    assert_eq!(parse_u64("1.0"), None);
    assert_eq!(parse_u64("/"), None);
    assert_eq!(parse_u64(":"), None);
}

#[test]
fn parse_u64_rejects_digits_outside_ascii() {
    assert_eq!(parse_u64("\u{0663}"), None);
    assert_eq!(parse_u64("1\u{0663}"), None);
    assert_eq!(parse_u64("\u{ff11}2"), None);
    assert_eq!(parse_u64("+\u{00e9}"), None);
}

#[test]
fn parse_u64_reads_the_largest_number_and_no_larger_one() {
    assert_eq!(parse_u64("18446744073709551615"), Some(u64::MAX));
    assert_eq!(parse_u64("18446744073709551616"), None);
    assert_eq!(parse_u64("18446744073709551620"), None);
    assert_eq!(parse_u64("99999999999999999999"), None);
    assert_eq!(parse_u64("184467440737095516150"), None);
}

#[test]
fn parse_u64_agrees_with_the_standard_parser() {
    let texts = [
        "", "+", "-", "0", "+0", "-0", "00", "9", "10", "+10", "4294967296", "18446744073709551615",
        "18446744073709551616", "1e3", "١٢٣", "12 ", "\t12", "+ 1", "1+1",
    ];
    for text in texts {
        assert_eq!(parse_u64(text), text.parse::<u64>().ok(), "on {:?}", text);
    }
}

#[test]
fn parse_u64_reads_back_what_is_written() {
    for number in [0u64, 1, 9, 10, 11, 99, 100, 65_535, 4_294_967_295, u64::MAX - 1, u64::MAX] {
        assert_eq!(parse_u64(&format!("{}", number)), Some(number));
    }
}
