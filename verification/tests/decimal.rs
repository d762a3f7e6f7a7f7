use server_updater::decimal::{decimal_string, digit_of, parse_build_number, push_decimal};
use server_updater::text::chars_of;

#[test]
fn decimal_text_of_build_numbers() {
    assert_eq!(decimal_string(0), "0");
    assert_eq!(decimal_string(7), "7");
    assert_eq!(decimal_string(10), "10");
    assert_eq!(decimal_string(100), "100");
    assert_eq!(decimal_string(9999), "9999");
    assert_eq!(decimal_string(10000), "10000");
    assert_eq!(decimal_string(65535), "65535");
}

#[test]
fn decimal_text_is_appended() {
    let mut out = String::from("build ");
    push_decimal(&mut out, 4021);
    assert_eq!(out, "build 4021");
    push_decimal(&mut out, 0);
    assert_eq!(out, "build 40210");
}

#[test]
fn decimal_text_reads_back() {
    for n in [0u16, 1, 9, 10, 11, 99, 100, 101, 255, 256, 999, 1000, 12345, 65534, 65535] {
        assert_eq!(parse_build_number(&decimal_string(n)), Some(n));
        assert_eq!(decimal_string(n), n.to_string());
    }
}

#[test]
fn every_build_number_reads_back() {
    let mut n: u16 = 0;
    loop {
        assert_eq!(parse_build_number(&decimal_string(n)), Some(n));
        if n == u16::MAX {
            break;
        }
        n += 1;
    }
}

#[test]
fn build_numbers_are_read() {
    assert_eq!(parse_build_number("0"), Some(0));
    assert_eq!(parse_build_number("2062"), Some(2062));
    assert_eq!(parse_build_number("+17"), Some(17));
    assert_eq!(parse_build_number("0017"), Some(17));
    assert_eq!(parse_build_number("+0017"), Some(17));
    assert_eq!(parse_build_number("65535"), Some(65535));
    assert_eq!(parse_build_number("00000000000000000000000000000000000065535"), Some(65535));
}

#[test]
fn other_text_is_no_build_number() {
    for text in [
        "", "+", "-", "-1", "-0", "++1", "+-1", "1+", " 1", "1 ", "1.0", "1e3", "0x10", "a", "12a",
        "65536", "70000", "100000", "18446744073709551616", "１２",
    ] {
        assert_eq!(parse_build_number(text), None, "{:?}", text);
    }
}

#[test]
fn build_numbers_are_read_as_std_reads_them() {
    for text in ["0", "+0", "007", "+65535", "65536", "", "+", "-5", "12x", "99999"] {
        assert_eq!(parse_build_number(text), text.parse::<u16>().ok(), "{:?}", text);
    }
}

#[test]
fn digits_have_their_value() {
    for (i, c) in "0123456789".chars().enumerate() {
        assert_eq!(digit_of(c), Some(i as u16));
    }
    for c in ['a', 'A', ' ', '+', '-', '/', ':', '٣', '\0'] {
        assert_eq!(digit_of(c), None);
    }
}

#[test]
fn characters_are_taken_one_by_one() {
    assert_eq!(chars_of(""), Vec::<char>::new());
    assert_eq!(chars_of("a-b"), vec!['a', '-', 'b']);
    assert_eq!(chars_of("é1β"), vec!['é', '1', 'β']);
}
