use rustpad_server::decimal::{parse_unsigned, push_decimal, to_decimal};

#[test]
fn numbers_are_written_in_their_shortest_form() {
    assert_eq!(to_decimal(0), "0");
    assert_eq!(to_decimal(7), "7");
    assert_eq!(to_decimal(9), "9");
    assert_eq!(to_decimal(10), "10");
    assert_eq!(to_decimal(99), "99");
    assert_eq!(to_decimal(100), "100");
    assert_eq!(to_decimal(3030), "3030");
    assert_eq!(to_decimal(65535), "65535");
    assert_eq!(to_decimal(1234567890), "1234567890");
    assert_eq!(to_decimal(u64::MAX), "18446744073709551615");
}

#[test]
fn push_decimal_appends() {
    let mut text = String::from("port ");
    push_decimal(&mut text, 8080);
    assert_eq!(text, "port 8080");
    push_decimal(&mut text, 0);
    assert_eq!(text, "port 80800");
}

#[test]
fn digits_are_read() {
    assert_eq!(parse_unsigned("0", 10), Some(0));
    assert_eq!(parse_unsigned("7", 10), Some(7));
    assert_eq!(parse_unsigned("10", 10), Some(10));
    assert_eq!(parse_unsigned("3030", 65535), Some(3030));
    assert_eq!(parse_unsigned("65535", 65535), Some(65535));
    assert_eq!(parse_unsigned("18446744073709551615", u64::MAX), Some(u64::MAX));
}

#[test]
fn a_leading_plus_and_leading_zeros_are_accepted() {
    assert_eq!(parse_unsigned("+80", 65535), Some(80));
    assert_eq!(parse_unsigned("0080", 65535), Some(80));
    assert_eq!(parse_unsigned("+0080", 65535), Some(80));
    assert_eq!(parse_unsigned("000000000000000000000000000001", 1), Some(1));
    assert_eq!(parse_unsigned("+0", 0), Some(0));
}

#[test]
fn numbers_over_the_limit_are_refused() {
    assert_eq!(parse_unsigned("11", 10), None);
    assert_eq!(parse_unsigned("65536", 65535), None);
    assert_eq!(parse_unsigned("99999", 65535), None);
    assert_eq!(parse_unsigned("18446744073709551616", u64::MAX), None);
    assert_eq!(parse_unsigned("99999999999999999999999999", u64::MAX), None);
    assert_eq!(parse_unsigned("1", 0), None);
    assert_eq!(parse_unsigned("9", 5), None);
}

#[test]
fn anything_but_digits_is_refused() {
    assert_eq!(parse_unsigned("", 100), None);
    assert_eq!(parse_unsigned("+", 100), None);
    assert_eq!(parse_unsigned("-", 100), None);
    assert_eq!(parse_unsigned("-1", 100), None);
    assert_eq!(parse_unsigned("-0", 100), None);
    assert_eq!(parse_unsigned("++1", 100), None);
    assert_eq!(parse_unsigned("1+", 100), None);
    assert_eq!(parse_unsigned(" 1", 100), None);
    assert_eq!(parse_unsigned("1 ", 100), None);
    assert_eq!(parse_unsigned("1_0", 100), None);
    assert_eq!(parse_unsigned("1.0", 100), None);
    assert_eq!(parse_unsigned("0x10", 100), None);
    assert_eq!(parse_unsigned("ten", 100), None);
    assert_eq!(parse_unsigned("١٢", 100), None);
    assert_eq!(parse_unsigned("1é", 100), None);
}

#[test]
fn reading_agrees_with_the_standard_library() {
    let samples = [
        "", "+", "-", "0", "+0", "-0", "1", "+1", "-1", "007", "255", "256", "65535", "65536",
        "+65535", " 1", "1 ", "1a", "a1", "4294967295", "4294967296", "18446744073709551615",
        "18446744073709551616", "00000000000000000000000000000000065535",
    ];
    for text in samples {
        assert_eq!(parse_unsigned(text, 65535), text.parse::<u16>().ok().map(u64::from), "{:?}", text);
        assert_eq!(parse_unsigned(text, 0xffff_ffff), text.parse::<u32>().ok().map(u64::from), "{:?}", text);
        assert_eq!(parse_unsigned(text, u64::MAX), text.parse::<u64>().ok(), "{:?}", text);
    }
}

#[test]
fn what_was_written_is_read_back() {
    for n in [0u64, 1, 9, 10, 11, 99, 100, 101, 3030, 65535, 65536, u64::MAX - 1, u64::MAX] {
        assert_eq!(parse_unsigned(&to_decimal(n), u64::MAX), Some(n));
        assert_eq!(to_decimal(n), n.to_string());
    }
}
