use ffui::digits::parse_u64_digits;
use ffui::probe::parse_duration_micros;
use ffui::probe::trim_spaces;
use ffui::progress::completion_fraction_ppm;
use ffui::progress::elapsed_of_line;

#[test]
fn digit_runs_parse() {
    assert_eq!(parse_u64_digits(b"0"), Some(0));
    assert_eq!(parse_u64_digits(b"123"), Some(123));
    assert_eq!(parse_u64_digits(b"999999999999999999"), Some(999_999_999_999_999_999));
}

#[test]
fn digit_runs_reject_junk() {
    assert_eq!(parse_u64_digits(b""), None);
    assert_eq!(parse_u64_digits(b"12a"), None);
    assert_eq!(parse_u64_digits(b"-1"), None);
    assert_eq!(parse_u64_digits(b" 1"), None);
    // nineteen digits may exceed the representable range and are refused
    assert_eq!(parse_u64_digits(b"1234567890123456789"), None);
}

#[test]
fn trim_strips_surrounding_whitespace() {
    assert_eq!(trim_spaces(b"  10.5\r\n"), b"10.5");
    assert_eq!(trim_spaces(b"\t\n"), b"");
    assert_eq!(trim_spaces(b"a b"), b"a b");
}

#[test]
fn duration_whole_seconds() {
    assert_eq!(parse_duration_micros(b"10\n"), 10_000_000);
    assert_eq!(parse_duration_micros(b"0"), 0);
    assert_eq!(parse_duration_micros(b"7"), 7_000_000);
}

#[test]
fn duration_fractional_seconds() {
    assert_eq!(parse_duration_micros(b"10.523146\n"), 10_523_146);
    assert_eq!(parse_duration_micros(b"10.5"), 10_500_000);
    assert_eq!(parse_duration_micros(b"  7.25  "), 7_250_000);
    assert_eq!(parse_duration_micros(b"0.000001"), 1);
    // digits beyond the sixth lie below the microsecond
    assert_eq!(parse_duration_micros(b"1.1234567"), 1_123_456);
}

#[test]
fn unparsable_duration_means_unknown() {
    assert_eq!(parse_duration_micros(b""), 0);
    assert_eq!(parse_duration_micros(b"abc"), 0);
    assert_eq!(parse_duration_micros(b"-3"), 0);
    assert_eq!(parse_duration_micros(b"1.2.3"), 0);
    assert_eq!(parse_duration_micros(b"3."), 0);
    assert_eq!(parse_duration_micros(b".5"), 0);
    assert_eq!(parse_duration_micros(b"N/A"), 0);
    // more than twelve integer-second digits is out of range
    assert_eq!(parse_duration_micros(b"1000000000000"), 0);
    assert_eq!(parse_duration_micros(b"999999999999"), 999_999_999_999_000_000);
}

#[test]
fn elapsed_time_lines_are_read() {
    assert_eq!(elapsed_of_line(b"out_time_ms=2500000"), Some(2_500_000));
    assert_eq!(elapsed_of_line(b"out_time_ms=0"), Some(0));
}

#[test]
fn other_lines_are_ignored() {
    assert_eq!(elapsed_of_line(b"frame=5"), None);
    assert_eq!(elapsed_of_line(b"out_time=00:00:02.500000"), None);
    assert_eq!(elapsed_of_line(b"out_time_ms="), None);
    assert_eq!(elapsed_of_line(b"out_time_ms=12x"), None);
    assert_eq!(elapsed_of_line(b"out_time_ms=-1"), None);
    assert_eq!(elapsed_of_line(b""), None);
}

#[test]
fn completion_fraction_reference_points() {
    // elapsed 0 of 100 s is 0.0; 50 s of 50 s is 1.0; 25 s of 100 s is 0.25
    assert_eq!(completion_fraction_ppm(0, 100_000_000), 0);
    assert_eq!(completion_fraction_ppm(50_000_000, 50_000_000), 1_000_000);
    assert_eq!(completion_fraction_ppm(25_000_000, 100_000_000), 250_000);
}

#[test]
fn completion_fraction_is_clamped() {
    assert_eq!(completion_fraction_ppm(200_000_000, 100_000_000), 1_000_000);
    assert_eq!(completion_fraction_ppm(u64::MAX, 1), 1_000_000);
}
