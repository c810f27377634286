//! Tests for the time formatting helpers.

use f1_telemetry::fmt::{
    format_decimal, format_three_digits, format_time, format_time_ms, format_two_digits,
};

#[test]
fn format_time_pads_every_component() {
    assert_eq!(format_time(0), "00:00:00");
    assert_eq!(format_time(59), "00:00:59");
    assert_eq!(format_time(60), "00:01:00");
    assert_eq!(format_time(3725), "01:02:05");
    assert_eq!(format_time(65535), "18:12:15");
}

#[test]
fn format_time_ms_appends_milliseconds() {
    assert_eq!(format_time_ms(0, 0), "00:00:00.000");
    assert_eq!(format_time_ms(3725, 42), "01:02:05.042");
    assert_eq!(format_time_ms(3725, 999), "01:02:05.999");
    assert_eq!(format_time_ms(7, 5), "00:00:07.005");
}

#[test]
fn long_sessions_widen_the_hour_field() {
    assert_eq!(format_time_ms(360000, 1), "100:00:00.001");
}

#[test]
fn decimal_helpers_match_plain_formatting() {
    assert_eq!(format_decimal(0), "0");
    assert_eq!(format_decimal(120460), "120460");
    assert_eq!(format_two_digits(7), "07");
    assert_eq!(format_two_digits(42), "42");
    assert_eq!(format_three_digits(7), "007");
    assert_eq!(format_three_digits(70), "070");
    assert_eq!(format_three_digits(700), "700");
    assert_eq!(format_three_digits(1000), "1000");
}
