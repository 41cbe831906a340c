use sysmetrics::text::{
    decimal_text, parse_decimal, parse_percent_tenk, parse_percent_text, parse_pid,
};

#[test]
fn parse_decimal_plain_numbers() {
    assert_eq!(parse_decimal("0"), Some(0));
    assert_eq!(parse_decimal("123"), Some(123));
    assert_eq!(parse_decimal("007"), Some(7));
}

#[test]
fn parse_decimal_rejects_non_digits() {
    assert_eq!(parse_decimal(""), None);
    assert_eq!(parse_decimal("12a"), None);
    assert_eq!(parse_decimal("+5"), None);
    assert_eq!(parse_decimal("-5"), None);
    assert_eq!(parse_decimal(" 5"), None);
    assert_eq!(parse_decimal("5.0"), None);
}

#[test]
fn parse_decimal_at_the_limit() {
    assert_eq!(parse_decimal("18446744073709551615"), Some(u64::MAX));
    assert_eq!(parse_decimal("18446744073709551616"), None);
    assert_eq!(parse_decimal("99999999999999999999999999"), None);
}

#[test]
fn parse_pid_accepts_digits_and_plus_sign() {
    assert_eq!(parse_pid("42"), Some(42));
    assert_eq!(parse_pid("1"), Some(1));
    // The native integer parse accepts a leading '+', so the pid parse
    // does too.
    assert_eq!(parse_pid("+5"), Some(5));
    assert_eq!(parse_pid("not-a-number"), None);
    assert_eq!(parse_pid(""), None);
    assert_eq!(parse_pid("+"), None);
    assert_eq!(parse_pid("-1"), None);
    assert_eq!(parse_pid("++1"), None);
}

#[test]
fn parse_pid_is_bounded_by_the_native_pid_range() {
    // The narrowest native pid type is a 32-bit signed id; anything
    // wider must be rejected, never wrapped into some other pid.
    assert_eq!(parse_pid("2147483647"), Some(2147483647));
    assert_eq!(parse_pid("2147483648"), None);
    assert_eq!(parse_pid("4294967301"), None);
    assert_eq!(parse_pid("99999999999999999999"), None);
}

#[test]
fn percent_text_whole_numbers() {
    assert_eq!(parse_percent_text("12"), 1200);
    assert_eq!(parse_percent_text("0"), 0);
    assert_eq!(parse_percent_text("100"), 10000);
}

#[test]
fn percent_text_fractions() {
    assert_eq!(parse_percent_text("1.2"), 120);
    assert_eq!(parse_percent_text("12.5"), 1250);
    assert_eq!(parse_percent_text("33.33"), 3333);
    assert_eq!(parse_percent_text("0.07"), 7);
}

#[test]
fn percent_text_rounds_half_up_at_third_decimal() {
    assert_eq!(parse_percent_text("12.345"), 1235);
    assert_eq!(parse_percent_text("12.344"), 1234);
    assert_eq!(parse_percent_text("0.005"), 1);
    assert_eq!(parse_percent_text("0.004"), 0);
    assert_eq!(parse_percent_text("99.999"), 10000);
}

#[test]
fn percent_text_invalid_degrades_to_zero() {
    assert_eq!(parse_percent_text(""), 0);
    assert_eq!(parse_percent_text("NaN"), 0);
    assert_eq!(parse_percent_text("inf"), 0);
    assert_eq!(parse_percent_text("-3.2"), 0);
    assert_eq!(parse_percent_text("12."), 0);
    assert_eq!(parse_percent_text(".5"), 0);
    assert_eq!(parse_percent_text("1.2.3"), 0);
    assert_eq!(parse_percent_text("1,5"), 0);
}

#[test]
fn percent_tenk_reads_four_decimals() {
    assert_eq!(parse_percent_tenk("12"), 120_000);
    assert_eq!(parse_percent_tenk("1.005"), 10_050);
    assert_eq!(parse_percent_tenk("12.345"), 123_450);
    assert_eq!(parse_percent_tenk("12.3456"), 123_456);
    assert_eq!(parse_percent_tenk("0.0001"), 1);
}

#[test]
fn percent_tenk_rounds_half_up_at_fifth_decimal() {
    assert_eq!(parse_percent_tenk("0.00005"), 1);
    assert_eq!(parse_percent_tenk("0.00004"), 0);
    assert_eq!(parse_percent_tenk("12.34565"), 123_457);
}

#[test]
fn percent_tenk_invalid_degrades_to_zero() {
    assert_eq!(parse_percent_tenk(""), 0);
    assert_eq!(parse_percent_tenk("NaN"), 0);
    assert_eq!(parse_percent_tenk("-1.5"), 0);
    assert_eq!(parse_percent_tenk("7."), 0);
}

#[test]
fn decimal_text_renders_numbers() {
    assert_eq!(decimal_text(0).as_str(), "0");
    assert_eq!(decimal_text(7).as_str(), "7");
    assert_eq!(decimal_text(10).as_str(), "10");
    assert_eq!(decimal_text(42).as_str(), "42");
    assert_eq!(decimal_text(u64::MAX).as_str(), "18446744073709551615");
}

#[test]
fn decimal_text_round_trips_through_parse() {
    for n in [0u64, 1, 9, 10, 99, 100, 12345, u64::MAX] {
        assert_eq!(parse_decimal(decimal_text(n).as_str()), Some(n));
    }
}
