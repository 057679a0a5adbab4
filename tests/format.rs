use teto_pages::format::{
    decimal, format_clock, format_hundredths, format_long_clock, parse_blitz_score_number,
    parse_duration_since, signed_decimal, zero_padded,
};

#[test]
fn decimal_writes_digits() {
    assert_eq!(decimal(0), "0");
    assert_eq!(decimal(7), "7");
    assert_eq!(decimal(1234567890), "1234567890");
    assert_eq!(decimal(u64::MAX), "18446744073709551615");
}

#[test]
fn signed_decimal_writes_sign() {
    assert_eq!(signed_decimal(-42), "-42");
    assert_eq!(signed_decimal(42), "42");
    assert_eq!(signed_decimal(i64::MIN), "-9223372036854775808");
}

#[test]
fn zero_padded_pads_to_width() {
    assert_eq!(zero_padded(5, 3), "005");
    assert_eq!(zero_padded(1234, 3), "1234");
    assert_eq!(zero_padded(0, 2), "00");
}

#[test]
fn grouping_puts_commas_between_thousands() {
    assert_eq!(parse_blitz_score_number(0), "0");
    assert_eq!(parse_blitz_score_number(999), "999");
    assert_eq!(parse_blitz_score_number(1000), "1,000");
    assert_eq!(parse_blitz_score_number(1234567), "1,234,567");
    assert_eq!(parse_blitz_score_number(1000005), "1,000,005");
    assert_eq!(parse_blitz_score_number(1234567890), "1,234,567,890");
}

#[test]
fn time_ago_picks_coarsest_unit() {
    assert_eq!(parse_duration_since(0), "0 SECOND");
    assert_eq!(parse_duration_since(1), "1 SECOND");
    assert_eq!(parse_duration_since(59), "59 SECONDS");
    assert_eq!(parse_duration_since(60), "1 MINUTE");
    assert_eq!(parse_duration_since(150), "2 MINUTES");
    assert_eq!(parse_duration_since(3600), "1 HOUR");
    assert_eq!(parse_duration_since(5 * 3600), "5 HOURS");
    assert_eq!(parse_duration_since(86400), "1 DAY");
    assert_eq!(parse_duration_since(3 * 86400), "3 DAYS");
    assert_eq!(parse_duration_since(7 * 86400), "1 WEEK");
    assert_eq!(parse_duration_since(20 * 86400), "2 WEEKS");
    assert_eq!(parse_duration_since(31 * 86400), "1 MONTH");
    assert_eq!(parse_duration_since(60 * 86400), "2 MONTHS");
    assert_eq!(parse_duration_since(366 * 86400), "1 YEAR");
    assert_eq!(parse_duration_since(730 * 86400), "2 YEARS");
}

#[test]
fn time_ago_of_future_instant_is_negative() {
    assert_eq!(parse_duration_since(-30), "-30 SECOND");
    assert_eq!(parse_duration_since(-90), "-1 MINUTE");
}

#[test]
fn hundredths_have_two_decimals() {
    assert_eq!(format_hundredths(1234), "12.34");
    assert_eq!(format_hundredths(5), "0.05");
    assert_eq!(format_hundredths(-5), "-0.05");
    assert_eq!(format_hundredths(0), "0.00");
    assert_eq!(format_hundredths(-250), "-2.50");
}

#[test]
fn clock_shows_minutes_and_seconds() {
    assert_eq!(format_clock(0), "0:00");
    assert_eq!(format_clock(65_999), "1:05");
    assert_eq!(format_clock(3_725_000), "62:05");
}

#[test]
fn long_clock_adds_hours() {
    assert_eq!(format_long_clock(65_432), "1:05");
    assert_eq!(format_long_clock(3_725_000), "1:02:05");
    assert_eq!(format_long_clock(59_999), "0:59");
}
