//! Canonical renderings of numbers and booleans.

use waka::text::{bool_to_str, u32_to_decimal};

#[test]
fn decimal_rendering_of_small_numbers() {
    assert_eq!(u32_to_decimal(0), "0");
    assert_eq!(u32_to_decimal(7), "7");
    assert_eq!(u32_to_decimal(10), "10");
    assert_eq!(u32_to_decimal(30), "30");
}

#[test]
fn decimal_rendering_of_the_largest_value() {
    assert_eq!(u32_to_decimal(u32::MAX), "4294967295");
}

#[test]
fn boolean_rendering() {
    assert_eq!(bool_to_str(true), "true");
    assert_eq!(bool_to_str(false), "false");
}
