use graphql_scalar::text::{i32_to_text, i64_to_text, parse_i32};

#[test]
fn integers_are_written_in_decimal() {
    assert_eq!(i32_to_text(0), "0");
    assert_eq!(i32_to_text(7), "7");
    assert_eq!(i32_to_text(10), "10");
    assert_eq!(i32_to_text(-1), "-1");
    assert_eq!(i32_to_text(1996), "1996");
    assert_eq!(i32_to_text(i32::MAX), "2147483647");
    assert_eq!(i32_to_text(i32::MIN), "-2147483648");
}

#[test]
fn long_integers_are_written_in_decimal() {
    assert_eq!(i64_to_text(0), "0");
    assert_eq!(i64_to_text(-9), "-9");
    assert_eq!(i64_to_text(i64::MAX), "9223372036854775807");
    assert_eq!(i64_to_text(i64::MIN), "-9223372036854775808");
}

#[test]
fn written_integers_agree_with_the_standard_library() {
    for v in [0, 1, -1, 9, 10, 11, 99, 100, 101, -100, 65535, -65536, i32::MAX, i32::MIN] {
        assert_eq!(i32_to_text(v), v.to_string());
    }
    for v in [0i64, 5_000_000_000, -5_000_000_000, i64::MAX, i64::MIN] {
        assert_eq!(i64_to_text(v), v.to_string());
    }
}

#[test]
fn integer_literals_are_read() {
    assert_eq!(parse_i32("0"), Some(0));
    assert_eq!(parse_i32("-0"), Some(0));
    assert_eq!(parse_i32("+5"), Some(5));
    assert_eq!(parse_i32("42"), Some(42));
    assert_eq!(parse_i32("-42"), Some(-42));
    assert_eq!(parse_i32("00000000000000000012"), Some(12));
    assert_eq!(parse_i32("2147483647"), Some(i32::MAX));
    assert_eq!(parse_i32("-2147483648"), Some(i32::MIN));
}

#[test]
fn integer_literals_that_do_not_fit_are_refused() {
    assert_eq!(parse_i32("2147483648"), None);
    assert_eq!(parse_i32("-2147483649"), None);
    assert_eq!(parse_i32("99999999999999999999999999"), None);
    assert_eq!(parse_i32("-99999999999999999999999999"), None);
}

#[test]
fn texts_that_are_no_integer_literal_are_refused() {
    assert_eq!(parse_i32(""), None);
    assert_eq!(parse_i32("-"), None);
    assert_eq!(parse_i32("+"), None);
    assert_eq!(parse_i32("+-1"), None);
    assert_eq!(parse_i32("12a"), None);
    assert_eq!(parse_i32("a12"), None);
    assert_eq!(parse_i32(" 1"), None);
    assert_eq!(parse_i32("1 "), None);
    assert_eq!(parse_i32("1.0"), None);
    assert_eq!(parse_i32("1e3"), None);
    assert_eq!(parse_i32("\u{ff11}\u{ff12}"), None);
    assert_eq!(parse_i32("1\u{e9}"), None);
}

#[test]
fn read_integers_agree_with_the_standard_library() {
    let texts = [
        "0", "-0", "+0", "7", "+7", "-7", "007", "2147483647", "2147483648", "-2147483648",
        "-2147483649", "", "-", "+", "--1", "1-", "x", "12x", "\u{661}", "4294967296",
    ];
    for text in texts {
        assert_eq!(parse_i32(text), text.parse::<i32>().ok(), "{}", text);
    }
}

#[test]
fn a_written_integer_is_read_back() {
    for v in [0, 1, -1, 10, -10, 123456789, i32::MAX, i32::MIN] {
        assert_eq!(parse_i32(&i32_to_text(v)), Some(v));
    }
}
