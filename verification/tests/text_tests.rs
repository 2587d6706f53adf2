use oliana::err::LocatedError;
use oliana::misc::duration_to_display_str;
use oliana::text::{decimal, parse_decimal, push_decimal, push_padded_decimal, push_zeros};

#[test]
fn decimal_of_zero_is_one_digit() {
    assert_eq!(decimal(0), "0");
}

#[test]
fn decimal_writes_every_digit() {
    assert_eq!(decimal(1234567890), "1234567890");
    assert_eq!(decimal(9), "9");
    assert_eq!(decimal(10), "10");
}

#[test]
fn decimal_of_the_largest_number() {
    assert_eq!(decimal(u128::MAX), "340282366920938463463374607431768211455");
}

#[test]
fn decimal_agrees_with_std_formatting() {
    let mut n: u128 = 1;
    while n < u128::MAX / 7 {
        assert_eq!(decimal(n), format!("{}", n));
        n = n * 7 + 3;
    }
}

#[test]
fn push_decimal_appends() {
    let mut out = String::from("pid=");
    push_decimal(&mut out, 4021);
    assert_eq!(out, "pid=4021");
}

#[test]
fn push_zeros_appends_that_many() {
    let mut out = String::from("x");
    push_zeros(&mut out, 3);
    assert_eq!(out, "x000");
    push_zeros(&mut out, 0);
    assert_eq!(out, "x000");
}

#[test]
fn padding_fills_short_numerals_only() {
    let mut out = String::new();
    push_padded_decimal(&mut out, 7, 3);
    assert_eq!(out, "007");
    let mut out = String::new();
    push_padded_decimal(&mut out, 1234, 3);
    assert_eq!(out, "1234");
    let mut out = String::new();
    push_padded_decimal(&mut out, 0, 2);
    assert_eq!(out, "00");
}

#[test]
fn parse_decimal_reads_plain_numerals() {
    assert_eq!(parse_decimal("0", 100), Some(0));
    assert_eq!(parse_decimal("42", 100), Some(42));
    assert_eq!(parse_decimal("007", 100), Some(7));
    assert_eq!(parse_decimal("+5", 100), Some(5));
    assert_eq!(parse_decimal("100", 100), Some(100));
}

#[test]
fn parse_decimal_refuses_what_is_no_numeral() {
    assert_eq!(parse_decimal("", 100), None);
    assert_eq!(parse_decimal("+", 100), None);
    assert_eq!(parse_decimal("-5", 100), None);
    assert_eq!(parse_decimal("++5", 100), None);
    assert_eq!(parse_decimal(" 5", 100), None);
    assert_eq!(parse_decimal("5 ", 100), None);
    assert_eq!(parse_decimal("5\n", 100), None);
    assert_eq!(parse_decimal("12a", 100), None);
    assert_eq!(parse_decimal("\u{0663}", 100), None);
}

#[test]
fn parse_decimal_refuses_what_is_above_the_limit() {
    assert_eq!(parse_decimal("101", 100), None);
    assert_eq!(parse_decimal("4294967295", 4294967295), Some(4294967295));
    assert_eq!(parse_decimal("4294967296", 4294967295), None);
    assert_eq!(parse_decimal("18446744073709551615", u64::MAX), Some(u64::MAX));
    assert_eq!(parse_decimal("18446744073709551616", u64::MAX), None);
    assert_eq!(parse_decimal("99999999999999999999999999", u64::MAX), None);
    assert_eq!(parse_decimal("9", 5), None);
}

#[test]
fn parse_decimal_agrees_with_std_on_u32() {
    let samples = [
        "", "+", "-", "0", "-0", "+0", "007", "+5", "-5", "4294967295", "4294967296", " 1", "1 ",
        "12a", "a12", "1_000", "0x10", "1e3", "١٢", "65535", "65536", "000000000000000000001",
    ];
    for s in samples.iter() {
        let expected = s.parse::<u32>().ok().map(|v| v as u64);
        assert_eq!(parse_decimal(s, u32::MAX as u64), expected);
    }
}

#[test]
fn duration_shows_milliseconds_alone() {
    assert_eq!(duration_to_display_str(0), "000ms");
    assert_eq!(duration_to_display_str(7), "007ms");
    assert_eq!(duration_to_display_str(999), "999ms");
}

#[test]
fn duration_starts_at_the_largest_unit() {
    assert_eq!(duration_to_display_str(1500), "01s 500ms");
    assert_eq!(duration_to_display_str(61_000), "01m 01s 000ms");
    assert_eq!(duration_to_display_str(60_000), "01m 00s 000ms");
    assert_eq!(duration_to_display_str(3_723_004), "01h 02m 03s 004ms");
    assert_eq!(duration_to_display_str(3_600_000), "01h 00m 00s 000ms");
}

#[test]
fn duration_does_not_fold_hours_into_days() {
    assert_eq!(duration_to_display_str(360_000_000), "100h 00m 00s 000ms");
    assert_eq!(duration_to_display_str(25 * 3_600_000 + 1), "25h 00m 00s 001ms");
}

#[test]
fn duration_agrees_with_std_formatting() {
    let d = std::time::Duration::from_millis(86_399_999);
    let total = d.as_millis();
    let expected = format!(
        "{:0>2}h {:0>2}m {:0>2}s {:0>3}ms",
        total / 3_600_000,
        (total / 60_000) % 60,
        (total / 1000) % 60,
        total % 1000
    );
    assert_eq!(duration_to_display_str(total), expected);
    assert_eq!(expected, "23h 59m 59s 999ms");
}

#[test]
fn located_error_without_remark() {
    let e = LocatedError::new("No such file", "src/files.rs", 17, 5);
    assert_eq!(e.message(), "No such file from src/files.rs:17");
    assert_eq!(e.column, 5);
}

#[test]
fn located_error_with_remark() {
    let e = LocatedError::with_message("denied", "main.rs", 3, 1, "while spawning");
    assert_eq!(e.message(), "denied from main.rs:3 (while spawning)");
}
