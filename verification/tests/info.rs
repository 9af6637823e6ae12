use std::time::Duration;
use terminal_fluid_sim::format_duration;
use terminal_fluid_sim::info::{decimal_text, format_parts};

#[test]
fn decimal_numerals() {
    assert_eq!(decimal_text(0), "0");
    assert_eq!(decimal_text(7), "7");
    assert_eq!(decimal_text(10), "10");
    assert_eq!(decimal_text(255), "255");
    assert_eq!(decimal_text(1_000), "1000");
    assert_eq!(decimal_text(9_876_543), "9876543");
    assert_eq!(decimal_text(u32::MAX), "4294967295");
}

#[test]
fn parts_are_millis_point_low_byte_of_micros() {
    assert_eq!(format_parts(0, 0), "0.0 ms");
    assert_eq!(format_parts(12, 12_345), "12.57 ms");
    assert_eq!(format_parts(1, 1_000), "1.232 ms");
    assert_eq!(format_parts(999, 999_999), "999.63 ms");
    assert_eq!(format_parts(3, 256), "3.0 ms");
    assert_eq!(format_parts(3, 255), "3.255 ms");
}

#[test]
fn duration_shows_its_fraction_of_a_second() {
    assert_eq!(format_duration(Duration::from_micros(12_345)), "12.57 ms");
    assert_eq!(format_duration(Duration::from_millis(16)), "16.128 ms");
    assert_eq!(format_duration(Duration::from_nanos(999)), "0.0 ms");
    assert_eq!(format_duration(Duration::default()), "0.0 ms");
    // whole seconds do not show
    assert_eq!(format_duration(Duration::new(5, 2_000_000)), "2.208 ms");
    assert_eq!(format_duration(Duration::from_secs(3)), "0.0 ms");
}
