use metamusic::text::{decimal_text, parse_i32, parse_u32, same_text, signed_decimal_text};

#[test]
fn numbers_are_read_from_decimal_text() {
    assert_eq!(parse_u32("0"), Some(0));
    assert_eq!(parse_u32("7"), Some(7));
    assert_eq!(parse_u32("+7"), Some(7));
    assert_eq!(parse_u32("007"), Some(7));
    assert_eq!(parse_u32("12"), Some(12));
    assert_eq!(parse_u32("4294967295"), Some(4294967295));
    assert_eq!(parse_u32("0004294967295"), Some(4294967295));
}

#[test]
fn text_that_is_no_number_is_refused() {
    assert_eq!(parse_u32(""), None);
    assert_eq!(parse_u32("+"), None);
    assert_eq!(parse_u32("-1"), None);
    assert_eq!(parse_u32("-0"), None);
    assert_eq!(parse_u32("1a"), None);
    assert_eq!(parse_u32("a1"), None);
    assert_eq!(parse_u32(" 1"), None);
    assert_eq!(parse_u32("1 "), None);
    assert_eq!(parse_u32("++1"), None);
    assert_eq!(parse_u32("1+"), None);
    assert_eq!(parse_u32("1.5"), None);
    assert_eq!(parse_u32("\u{ff11}"), None);
    assert_eq!(parse_u32("4294967296"), None);
    assert_eq!(parse_u32("99999999999999999999"), None);
    assert_eq!(parse_u32("42949672950"), None);
}

#[test]
fn reading_agrees_with_the_standard_parser() {
    let samples = [
        "", "0", "1", "+1", "-1", "+", "-", "00", "+00", "10", "4294967295", "4294967296", "4294967300",
        "18446744073709551616", "1x", "x", " 1", "1 ", "+-1", "١", "1_000", "0x10",
    ];
    for s in samples {
        assert_eq!(parse_u32(s), s.parse::<u32>().ok(), "{:?}", s);
    }
}

#[test]
fn numbers_are_written_in_decimal() {
    assert_eq!(decimal_text(0), "0");
    assert_eq!(decimal_text(7), "7");
    assert_eq!(decimal_text(10), "10");
    assert_eq!(decimal_text(105), "105");
    assert_eq!(decimal_text(4294967295), "4294967295");
    for n in [0u32, 1, 9, 10, 11, 99, 100, 101, 1000, 65535, 65536, 123456789, u32::MAX] {
        assert_eq!(decimal_text(n), n.to_string());
        assert_eq!(parse_u32(&decimal_text(n)), Some(n));
    }
}

#[test]
fn signed_numbers_carry_a_minus_sign() {
    assert_eq!(signed_decimal_text(0), "0");
    assert_eq!(signed_decimal_text(2024), "2024");
    assert_eq!(signed_decimal_text(-1), "-1");
    assert_eq!(signed_decimal_text(-2024), "-2024");
    assert_eq!(signed_decimal_text(i32::MAX), "2147483647");
    assert_eq!(signed_decimal_text(i32::MIN), "-2147483648");
    for n in [i32::MIN, i32::MIN + 1, -100, -10, -9, -1, 0, 1, 9, 10, 100, i32::MAX] {
        assert_eq!(signed_decimal_text(n), n.to_string());
    }
}

#[test]
fn texts_are_compared_character_by_character() {
    assert!(same_text("", ""));
    assert!(same_text("Artist", "Artist"));
    assert!(!same_text("Artist", "artist"));
    assert!(!same_text("Artist", "Artist "));
    assert!(!same_text("a", "b"));
    assert!(same_text("\u{e9}", "\u{e9}"));
    assert!(!same_text("\u{e9}", "e"));
}

#[test]
fn signed_numbers_are_read_from_decimal_text() {
    assert_eq!(parse_i32("0"), Some(0));
    assert_eq!(parse_i32("1999"), Some(1999));
    assert_eq!(parse_i32("+1999"), Some(1999));
    assert_eq!(parse_i32("-1999"), Some(-1999));
    assert_eq!(parse_i32("-0"), Some(0));
    assert_eq!(parse_i32("0042"), Some(42));
    assert_eq!(parse_i32("2147483647"), Some(i32::MAX));
    assert_eq!(parse_i32("-2147483648"), Some(i32::MIN));
    assert_eq!(parse_i32("-2147483647"), Some(i32::MIN + 1));
}

#[test]
fn text_that_is_no_signed_number_is_refused() {
    for text in [
        "", "+", "-", "--1", "+-1", "-+1", "1-", "1+", " 1", "1 ", "1.0", "1e3", "x", "12x", "2147483648",
        "-2147483649", "4294967295", "99999999999999999999", "-99999999999999999999", "1989-01-02",
        "\u{ff11}",
    ] {
        assert_eq!(parse_i32(text), None, "{:?}", text);
    }
}

#[test]
fn signed_reading_agrees_with_the_standard_parser() {
    let samples = [
        "", "0", "-0", "+0", "1", "-1", "+1", "00", "-00", "10", "-10", "2147483646", "2147483647",
        "2147483648", "2147483649", "-2147483647", "-2147483648", "-2147483649", "21474836470", "+", "-",
        "1x", "x1", " 1", "1 ", "+-1", "0x10", "1_000",
    ];
    for s in samples {
        assert_eq!(parse_i32(s), s.parse::<i32>().ok(), "{:?}", s);
    }
    for n in [i32::MIN, i32::MIN + 1, -1000, -1, 0, 1, 1000, i32::MAX - 1, i32::MAX] {
        assert_eq!(parse_i32(&signed_decimal_text(n)), Some(n));
    }
}
