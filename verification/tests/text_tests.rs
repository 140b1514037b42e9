use xero::price::{price_at_most, price_is_positive};
use xero::text::{
    char_is_white_space, count_digits, decimal, digit_str, hex, is_blank, starts_with,
};
use xero::timestamp::format_timestamp;

#[test]
fn white_space_is_what_the_standard_library_says() {
    let mut c = 0u32;
    while c <= 0x10ffff {
        if let Some(ch) = char::from_u32(c) {
            assert_eq!(char_is_white_space(ch), ch.is_whitespace(), "U+{:04X}", c);
        }
        c += 1;
    }
}

#[test]
fn blank_is_what_trim_leaves_empty() {
    for text in ["", " ", "\t \n", "\u{2028}\u{2029}", "a", " a ", "\u{200b}", "_", "\u{feff}"] {
        assert_eq!(is_blank(text), text.trim().is_empty(), "{:?}", text);
    }
    assert!(is_blank(""));
    assert!(is_blank(" \u{3000} "));
    assert!(!is_blank(" x "));
}

#[test]
fn digits_are_counted_whatever_stands_between() {
    assert_eq!(count_digits(""), 0);
    assert_eq!(count_digits("+49 (0) 30 1234-5678"), 13);
    assert_eq!(count_digits("abc"), 0);
    assert_eq!(count_digits("٣4"), 1);
    assert_eq!(count_digits("0123456789"), 10);
}

#[test]
fn prefix_test_compares_character_by_character() {
    assert!(starts_with("https://example.org", "https://"));
    assert!(!starts_with("http:/", "http://"));
    assert!(starts_with("abc", ""));
    assert!(starts_with("", ""));
    assert!(!starts_with("", "a"));
    assert!(!starts_with("Http://x", "http://"));
    assert!(starts_with("äö", "ä"));
}

#[test]
fn positive_prices_by_their_bits() {
    let values = [
        0.0f64,
        -0.0,
        5e-324,
        f64::MIN_POSITIVE,
        0.01,
        1.0,
        3.5,
        1e308,
        f64::MAX,
        f64::INFINITY,
        -5e-324,
        -1.0,
        f64::MIN,
        f64::NEG_INFINITY,
        f64::NAN,
        -f64::NAN,
        f64::from_bits(0x7ff0_0000_0000_0001),
        f64::from_bits(0xffff_ffff_ffff_ffff),
    ];
    for v in values {
        assert_eq!(price_is_positive(v.to_bits()), v > 0.0, "{:?}", v);
    }
}

#[test]
fn price_order_by_their_bits() {
    let values = [
        0.0f64,
        -0.0,
        5e-324,
        f64::MIN_POSITIVE,
        0.01,
        1.0,
        1.0000000000000002,
        3.5,
        1e308,
        f64::MAX,
        f64::INFINITY,
        -5e-324,
        -0.01,
        -1.0,
        -3.5,
        f64::MIN,
        f64::NEG_INFINITY,
        f64::NAN,
        -f64::NAN,
        f64::from_bits(0x7ff0_0000_0000_0001),
    ];
    for a in values {
        for b in values {
            assert_eq!(price_at_most(a.to_bits(), b.to_bits()), a <= b, "{:?} <= {:?}", a, b);
        }
    }
}

#[test]
fn timestamps_are_written_in_utc() {
    assert_eq!(format_timestamp(0), "1970-01-01 00:00:00");
    assert_eq!(format_timestamp(999_999_999), "1970-01-01 00:00:00");
    assert_eq!(format_timestamp(1_000_000_000), "1970-01-01 00:00:01");
    assert_eq!(format_timestamp(1_431_648_000_000_000_000), "2015-05-15 00:00:00");
    assert_eq!(format_timestamp(1_441_497_364_123_456_789), "2015-09-05 23:56:04");
    assert_eq!(format_timestamp(u64::MAX), "2554-07-21 23:34:33");
}

#[test]
fn digits_in_order_of_their_value() {
    let all: String = (0..16).map(digit_str).collect();
    assert_eq!(all, "0123456789abcdef");
}

#[test]
fn decimal_has_no_leading_zeros() {
    assert_eq!(decimal(0), "0");
    assert_eq!(decimal(7), "7");
    assert_eq!(decimal(10), "10");
    assert_eq!(decimal(1234), "1234");
    assert_eq!(decimal(1_000_000_007), "1000000007");
    assert_eq!(decimal(u64::MAX), "18446744073709551615");
    let mut n: u64 = 1;
    for _ in 0..60 {
        assert_eq!(decimal(n), format!("{}", n));
        assert_eq!(decimal(n - 1), format!("{}", n - 1));
        n = n.wrapping_mul(3).wrapping_add(1);
    }
}

#[test]
fn hex_keeps_the_lowest_digits() {
    assert_eq!(hex(0, 0), "");
    assert_eq!(hex(0xabc, 0), "");
    assert_eq!(hex(0, 4), "0000");
    assert_eq!(hex(0xabc, 2), "bc");
    assert_eq!(hex(0xabc, 6), "000abc");
    assert_eq!(hex(u64::MAX, 16), "ffffffffffffffff");
    assert_eq!(hex(0x400c_0000_0000_0000, 16), "400c000000000000");
    assert_eq!(hex(0x1234_5678_9abc_def0, 16), format!("{:016x}", 0x1234_5678_9abc_def0u64));
    assert_eq!(hex(1, 20), "00000000000000000001");
}
