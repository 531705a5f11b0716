use loyalty_api::decimal::{format_i32, parse_bounded, parse_i32, parse_i64};

#[test]
fn parse_i32_reads_plain_numbers() {
    assert_eq!(parse_i32("0"), Some(0));
    assert_eq!(parse_i32("42"), Some(42));
    assert_eq!(parse_i32("-17"), Some(-17));
    assert_eq!(parse_i32("+5"), Some(5));
    assert_eq!(parse_i32("007"), Some(7));
    assert_eq!(parse_i32("-0"), Some(0));
}

#[test]
fn parse_i32_reads_the_extremes() {
    assert_eq!(parse_i32("2147483647"), Some(i32::MAX));
    assert_eq!(parse_i32("-2147483648"), Some(i32::MIN));
    assert_eq!(parse_i32("2147483648"), None);
    assert_eq!(parse_i32("-2147483649"), None);
    assert_eq!(parse_i32("99999999999999999999999999999999999999999999"), None);
    assert_eq!(parse_i32("00000000000000000000000000000000000000000012"), Some(12));
}

#[test]
fn parse_i32_refuses_what_is_not_a_number() {
    assert_eq!(parse_i32(""), None);
    assert_eq!(parse_i32("-"), None);
    assert_eq!(parse_i32("+"), None);
    assert_eq!(parse_i32("abc"), None);
    assert_eq!(parse_i32("12a"), None);
    assert_eq!(parse_i32("a12"), None);
    assert_eq!(parse_i32(" 1"), None);
    assert_eq!(parse_i32("1 "), None);
    assert_eq!(parse_i32("--1"), None);
    assert_eq!(parse_i32("+-1"), None);
    assert_eq!(parse_i32("1-"), None);
    assert_eq!(parse_i32("1.0"), None);
    assert_eq!(parse_i32("\u{663}"), None);
    assert_eq!(parse_i32("1\u{e9}"), None);
}

#[test]
fn parse_i32_agrees_with_std() {
    let samples = vec![
        "", "0", "-0", "+0", "1", "-1", "+1", "10", "0010", "2147483647", "2147483648",
        "-2147483648", "-2147483649", "abc", "1a", "-a", "+", "-", " 3", "3 ", "4294967296",
        "\u{ff11}", "1_000",
    ];
    for s in samples {
        assert_eq!(parse_i32(s), s.parse::<i32>().ok(), "on {:?}", s);
        assert_eq!(parse_i64(s), s.parse::<i64>().ok(), "on {:?}", s);
    }
}

#[test]
fn parse_i64_reads_the_extremes() {
    assert_eq!(parse_i64("9223372036854775807"), Some(i64::MAX));
    assert_eq!(parse_i64("-9223372036854775808"), Some(i64::MIN));
    assert_eq!(parse_i64("9223372036854775808"), None);
    assert_eq!(parse_i64("-9223372036854775809"), None);
    assert_eq!(parse_i64("2147483648"), Some(2147483648));
}

#[test]
fn parse_bounded_keeps_to_its_bounds() {
    assert_eq!(parse_bounded("10", -5, 10), Some(10));
    assert_eq!(parse_bounded("11", -5, 10), None);
    assert_eq!(parse_bounded("-5", -5, 10), Some(-5));
    assert_eq!(parse_bounded("-6", -5, 10), None);
    assert_eq!(parse_bounded("0", 0, 0), Some(0));
    assert_eq!(parse_bounded("-0", 0, 0), Some(0));
    assert_eq!(parse_bounded("1", 0, 0), None);
}

#[test]
fn format_i32_writes_the_canonical_text() {
    assert_eq!(format_i32(0), "0");
    assert_eq!(format_i32(7), "7");
    assert_eq!(format_i32(10), "10");
    assert_eq!(format_i32(-1), "-1");
    assert_eq!(format_i32(1203), "1203");
    assert_eq!(format_i32(i32::MAX), "2147483647");
    assert_eq!(format_i32(i32::MIN), "-2147483648");
}

#[test]
fn format_then_parse_gives_the_number_back() {
    let samples = vec![0, 1, -1, 9, 10, 99, 100, -100, 65535, 1 << 30, i32::MAX, i32::MIN];
    for n in samples {
        assert_eq!(format_i32(n), n.to_string());
        assert_eq!(parse_i32(&format_i32(n)), Some(n));
    }
}

#[test]
fn parse_bounded_takes_any_bounds() {
    assert_eq!(parse_bounded("7", 5, 10), Some(7));
    assert_eq!(parse_bounded("5", 5, 10), Some(5));
    assert_eq!(parse_bounded("4", 5, 10), None);
    assert_eq!(parse_bounded("0", 5, 10), None);
    assert_eq!(parse_bounded("-7", 5, 10), None);
    assert_eq!(parse_bounded("-7", -10, -5), Some(-7));
    assert_eq!(parse_bounded("-10", -10, -5), Some(-10));
    assert_eq!(parse_bounded("-4", -10, -5), None);
    assert_eq!(parse_bounded("7", -10, -5), None);
    assert_eq!(parse_bounded("-0", -10, -5), None);
    assert_eq!(parse_bounded("3", 4, 2), None);
    assert_eq!(parse_bounded("3", 3, 3), Some(3));
    assert_eq!(parse_bounded("-9223372036854775808", i64::MIN, i64::MIN), Some(i64::MIN));
    assert_eq!(parse_bounded("9223372036854775808", i64::MIN, i64::MAX), None);
    assert_eq!(parse_bounded("9223372036854775807", i64::MAX, i64::MAX), Some(i64::MAX));
    assert_eq!(parse_bounded("x", 5, 10), None);
}
