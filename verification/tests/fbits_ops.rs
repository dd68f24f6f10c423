//! The scalar bit-pattern operations, checked against the host's own
//! single-precision arithmetic and against `libm`.

use terminal_raymarcher::fbits::{
    add_bits, sub_bits, mul_bits, div_bits, sqrt_bits, sin_bits, cos_bits, lt_bits, le_bits,
    gt_bits, ge_bits, neg_bits, bits_of_u16, bits_of_u8, u8_from_bits, u64_from_bits, abs, min,
    max, clamp, F_ZERO, F_ONE, F_TWO, F_HALF, F_180, F_PI,
};

fn b(x: f32) -> u32 {
    x.to_bits()
}

fn f(u: u32) -> f32 {
    f32::from_bits(u)
}

#[test]
fn add_matches_hardware() {
    assert_eq!(add_bits(b(1.5), b(2.25)), b(3.75));
    assert_eq!(add_bits(b(0.1), b(0.2)), b(0.1f32 + 0.2f32));
    assert_eq!(add_bits(b(-7.5), b(2.5)), b(-5.0));
}

#[test]
fn sub_matches_hardware() {
    assert_eq!(sub_bits(b(5.0), b(1.0)), b(4.0));
    assert_eq!(sub_bits(b(0.3), b(0.1)), b(0.3f32 - 0.1f32));
}

#[test]
fn mul_matches_hardware() {
    assert_eq!(mul_bits(b(3.0), b(7.0)), b(21.0));
    assert_eq!(mul_bits(b(0.1), b(0.1)), b(0.1f32 * 0.1f32));
}

#[test]
fn div_matches_hardware() {
    assert_eq!(div_bits(b(1.0), b(4.0)), b(0.25));
    assert_eq!(div_bits(b(1.0), b(3.0)), b(1.0f32 / 3.0f32));
}

#[test]
fn sqrt_matches_hardware() {
    assert_eq!(sqrt_bits(b(9.0)), b(3.0));
    assert_eq!(sqrt_bits(b(2.0)), b(2.0f32.sqrt()));
    assert_eq!(sqrt_bits(b(0.5625)), b(0.75));
}

#[test]
fn trigonometry_matches_libm() {
    assert_eq!(sin_bits(b(0.0)), b(0.0));
    assert_eq!(cos_bits(b(0.0)), b(1.0));
    for &a in &[0.5f32, 1.0, 1.57, 3.14, -2.0] {
        assert_eq!(sin_bits(b(a)), b(libm::sinf(a)));
        assert_eq!(cos_bits(b(a)), b(libm::cosf(a)));
    }
}

#[test]
fn comparisons() {
    assert!(lt_bits(b(1.0), b(2.0)));
    assert!(!lt_bits(b(2.0), b(1.0)));
    assert!(!lt_bits(b(1.0), b(1.0)));
    assert!(le_bits(b(1.0), b(1.0)));
    assert!(!le_bits(b(2.0), b(1.0)));
    assert!(gt_bits(b(2.0), b(1.0)));
    assert!(!gt_bits(b(1.0), b(1.0)));
    assert!(ge_bits(b(1.0), b(1.0)));
    assert!(!ge_bits(b(0.5), b(1.0)));
    // negative zero equals zero under the IEEE comparisons
    assert!(le_bits(b(-0.0), b(0.0)));
    assert!(!lt_bits(b(-0.0), b(0.0)));
    // a NaN compares false both ways
    let nan = b(f32::NAN);
    assert!(!lt_bits(nan, b(1.0)));
    assert!(!le_bits(nan, b(1.0)));
    assert!(!lt_bits(b(1.0), nan));
}

#[test]
fn negation_flips_the_sign_bit() {
    assert_eq!(neg_bits(b(1.0)), b(-1.0));
    assert_eq!(neg_bits(b(-2.5)), b(2.5));
    assert_eq!(neg_bits(b(0.0)), b(-0.0));
}

#[test]
fn integer_conversions() {
    assert_eq!(bits_of_u16(0), b(0.0));
    assert_eq!(bits_of_u16(80), b(80.0));
    assert_eq!(bits_of_u16(65535), b(65535.0));
    assert_eq!(bits_of_u8(255), b(255.0));
    assert_eq!(bits_of_u8(7), b(7.0));
    assert_eq!(u8_from_bits(b(254.7)), 254);
    assert_eq!(u8_from_bits(b(300.0)), 255);
    assert_eq!(u8_from_bits(b(-3.0)), 0);
    assert_eq!(u8_from_bits(b(f32::NAN)), 0);
    assert_eq!(u64_from_bits(b(9.99)), 9);
    assert_eq!(u64_from_bits(b(10.0)), 10);
    assert_eq!(u64_from_bits(b(0.0)), 0);
    assert_eq!(u64_from_bits(b(-1.5)), 0);
    assert_eq!(u64_from_bits(b(f32::NAN)), 0);
    assert_eq!(u64_from_bits(b(1.0e30)), u64::MAX);
}

#[test]
fn named_constants_are_the_right_bit_patterns() {
    assert_eq!(f(F_ZERO), 0.0);
    assert_eq!(f(F_ONE), 1.0);
    assert_eq!(f(F_TWO), 2.0);
    assert_eq!(f(F_HALF), 0.5);
    assert_eq!(f(F_180), 180.0);
    assert_eq!(f(F_PI), 3.14);
}

#[test]
fn abs_min_max_clamp() {
    assert_eq!(abs(b(-4.5)), b(4.5));
    assert_eq!(abs(b(4.5)), b(4.5));
    // the sign test keeps a negative zero as it is: -0.0 >= 0.0 holds
    assert_eq!(abs(b(-0.0)), b(-0.0));
    assert_eq!(min(b(3.0), b(5.0)), b(3.0));
    assert_eq!(min(b(5.0), b(3.0)), b(3.0));
    assert_eq!(max(b(3.0), b(5.0)), b(5.0));
    assert_eq!(max(b(5.0), b(3.0)), b(5.0));
    assert_eq!(clamp(b(0.5), b(0.0), b(1.0)), b(0.5));
    assert_eq!(clamp(b(-0.5), b(0.0), b(1.0)), b(0.0));
    assert_eq!(clamp(b(1.5), b(0.0), b(1.0)), b(1.0));
}
