use relay_confirm::elapsed::format_elapsed;
use relay_confirm::elapsed::u64_to_dec;

#[test]
fn decimal_rendering() {
    assert_eq!(u64_to_dec(0), "0");
    assert_eq!(u64_to_dec(7), "7");
    assert_eq!(u64_to_dec(40), "40");
    assert_eq!(u64_to_dec(1500), "1500");
    assert_eq!(u64_to_dec(u64::MAX), "18446744073709551615");
}

#[test]
fn zero_duration_formats_to_sentinel() {
    assert_eq!(format_elapsed(0, 0), "0µs");
}

#[test]
fn sub_microsecond_rounds_to_sentinel() {
    assert_eq!(format_elapsed(0, 999), "0µs");
}

#[test]
fn one_and_a_half_million_micros_shows_seconds_and_millis_only() {
    // 1,500,000 µs = 1 s + 500,000,000 ns: no microsecond component shown.
    assert_eq!(format_elapsed(1, 500_000_000), "1s : 500ms");
}

#[test]
fn five_hundred_micros_shows_micros_only() {
    assert_eq!(format_elapsed(0, 500_000), "500µs");
}

#[test]
fn whole_seconds_only() {
    assert_eq!(format_elapsed(2, 0), "2s");
}

#[test]
fn millis_only() {
    assert_eq!(format_elapsed(0, 250_000_000), "250ms");
}

#[test]
fn micros_suppressed_when_millis_nonzero() {
    // 3ms and 700µs: the microsecond component is redundant and dropped.
    assert_eq!(format_elapsed(0, 3_700_000), "3ms");
}

#[test]
fn seconds_with_sub_millisecond_remainder() {
    // 1s and 500µs: milliseconds are zero, so micros are shown with seconds.
    assert_eq!(format_elapsed(1, 500_000), "1s : 500µs");
}
