//! Decimal rendering of the numeric tokens.

use dialog::num::{u32_to_string, u8_to_string};

#[test]
fn zero_renders_as_one_digit() {
    assert_eq!(u32_to_string(0), "0");
}

#[test]
fn single_digits_render_plainly() {
    assert_eq!(u32_to_string(7), "7");
    assert_eq!(u8_to_string(9), "9");
}

#[test]
fn multi_digit_values_render_without_leading_zeros() {
    assert_eq!(u32_to_string(10), "10");
    assert_eq!(u32_to_string(255), "255");
    assert_eq!(u32_to_string(1000), "1000");
    assert_eq!(u32_to_string(u32::MAX), "4294967295");
    assert_eq!(u8_to_string(255), "255");
}
