//! Scalar IEEE-754 single-precision arithmetic on bit patterns.
//!
//! A `u32` in this crate is the bit pattern of a single-precision float.
//! Each primitive operation is a deterministic function of its operand
//! bit patterns, so each gets an uninterpreted spec function naming its
//! result and a trusted wrapper performing it: the arithmetic and the
//! comparisons through `rustc_apfloat` (a bit-exact, correctly rounding
//! software implementation of IEEE-754), the square root and the
//! trigonometry through `libm`. Negation alone is written out, since
//! IEEE-754 defines it exactly: it flips the sign bit.

use vstd::prelude::*;
use rustc_apfloat::Float;
use rustc_apfloat::ieee::Single;

verus! {

// Names for the results of the primitive float operations. Each is
// applied by exactly one trusted wrapper below; nothing else is assumed
// of them.
pub uninterp spec fn add_of(a: u32, b: u32) -> u32;

pub uninterp spec fn sub_of(a: u32, b: u32) -> u32;

pub uninterp spec fn mul_of(a: u32, b: u32) -> u32;

pub uninterp spec fn div_of(a: u32, b: u32) -> u32;

pub uninterp spec fn sqrt_of(a: u32) -> u32;

pub uninterp spec fn sin_of(a: u32) -> u32;

pub uninterp spec fn cos_of(a: u32) -> u32;

pub uninterp spec fn lt_of(a: u32, b: u32) -> bool;

pub uninterp spec fn le_of(a: u32, b: u32) -> bool;

pub uninterp spec fn f32_of_u16(x: u16) -> u32;

pub uninterp spec fn f32_of_u8(x: u8) -> u32;

pub uninterp spec fn u8_of_f32(a: u32) -> u8;

pub uninterp spec fn u64_of_f32(a: u32) -> u64;

/// The bit pattern of 0.0.
pub const F_ZERO: u32 = 0x0000_0000;

/// The bit pattern of 1.0.
pub const F_ONE: u32 = 0x3F80_0000;

/// The bit pattern of 2.0.
pub const F_TWO: u32 = 0x4000_0000;

/// The bit pattern of 0.5.
pub const F_HALF: u32 = 0x3F00_0000;

/// The bit pattern of 180.0.
pub const F_180: u32 = 0x4334_0000;

/// The bit pattern of 3.14, the approximation of pi used throughout.
pub const F_PI: u32 = 0x4048_F5C3;

/// The sign bit of a single-precision float.
pub const SIGN_BIT: u32 = 0x8000_0000;

/// IEEE-754 negation: the sign bit is flipped, all other bits are kept.
pub open spec fn neg_of(a: u32) -> u32 {
    a ^ SIGN_BIT
}

/// `a > b` on floats is `b < a`.
pub open spec fn gt_of(a: u32, b: u32) -> bool {
    lt_of(b, a)
}

/// `a >= b` on floats is `b <= a`.
pub open spec fn ge_of(a: u32, b: u32) -> bool {
    le_of(b, a)
}

/// Relies on `rustc_apfloat::ieee::Single`'s `+`: IEEE-754 addition,
/// correctly rounded to nearest even, a function of the operand bits alone.
#[verifier::external_body]
pub fn add_bits(a: u32, b: u32) -> (r: u32)
    ensures
        r == add_of(a, b),
{
    (Single::from_bits(a as u128) + Single::from_bits(b as u128)).value.to_bits() as u32
}

/// Relies on `rustc_apfloat::ieee::Single`'s `-`: IEEE-754 subtraction,
/// correctly rounded to nearest even, a function of the operand bits alone.
#[verifier::external_body]
pub fn sub_bits(a: u32, b: u32) -> (r: u32)
    ensures
        r == sub_of(a, b),
{
    (Single::from_bits(a as u128) - Single::from_bits(b as u128)).value.to_bits() as u32
}

/// Relies on `rustc_apfloat::ieee::Single`'s `*`: IEEE-754 multiplication,
/// correctly rounded to nearest even, a function of the operand bits alone.
#[verifier::external_body]
pub fn mul_bits(a: u32, b: u32) -> (r: u32)
    ensures
        r == mul_of(a, b),
{
    (Single::from_bits(a as u128) * Single::from_bits(b as u128)).value.to_bits() as u32
}

/// Relies on `rustc_apfloat::ieee::Single`'s `/`: IEEE-754 division,
/// correctly rounded to nearest even, a function of the operand bits alone.
#[verifier::external_body]
pub fn div_bits(a: u32, b: u32) -> (r: u32)
    ensures
        r == div_of(a, b),
{
    (Single::from_bits(a as u128) / Single::from_bits(b as u128)).value.to_bits() as u32
}

/// Relies on `libm::sqrtf`: the IEEE-754 square root, correctly rounded,
/// a function of the argument bits alone.
#[verifier::external_body]
pub fn sqrt_bits(a: u32) -> (r: u32)
    ensures
        r == sqrt_of(a),
{
    bytemuck::cast(libm::sqrtf(bytemuck::cast(a)))
}

/// Relies on `libm::sinf`: a pure function of the argument bits.
#[verifier::external_body]
pub fn sin_bits(a: u32) -> (r: u32)
    ensures
        r == sin_of(a),
{
    bytemuck::cast(libm::sinf(bytemuck::cast(a)))
}

/// Relies on `libm::cosf`: a pure function of the argument bits.
#[verifier::external_body]
pub fn cos_bits(a: u32) -> (r: u32)
    ensures
        r == cos_of(a),
{
    bytemuck::cast(libm::cosf(bytemuck::cast(a)))
}

/// Relies on `rustc_apfloat::ieee::Single`'s `<`: the IEEE-754 comparison,
/// false when either operand is a NaN.
#[verifier::external_body]
pub fn lt_bits(a: u32, b: u32) -> (r: bool)
    ensures
        r == lt_of(a, b),
{
    Single::from_bits(a as u128) < Single::from_bits(b as u128)
}

/// Relies on `rustc_apfloat::ieee::Single`'s `<=`: the IEEE-754 comparison,
/// false when either operand is a NaN.
#[verifier::external_body]
pub fn le_bits(a: u32, b: u32) -> (r: bool)
    ensures
        r == le_of(a, b),
{
    Single::from_bits(a as u128) <= Single::from_bits(b as u128)
}

/// Relies on `rustc_apfloat::Float::from_u128`: conversion of an integer
/// to the nearest single-precision float, exact on this range.
#[verifier::external_body]
pub fn bits_of_u16(x: u16) -> (r: u32)
    ensures
        r == f32_of_u16(x),
{
    Single::from_u128(x as u128).value.to_bits() as u32
}

/// Relies on `rustc_apfloat::Float::from_u128`: conversion of an integer
/// to the nearest single-precision float, exact on this range.
#[verifier::external_body]
pub fn bits_of_u8(x: u8) -> (r: u32)
    ensures
        r == f32_of_u8(x),
{
    Single::from_u128(x as u128).value.to_bits() as u32
}

/// Relies on `rustc_apfloat::Float::to_u128`: rounds toward zero and
/// saturates, NaN goes to zero, as the language's float-to-int cast does.
#[verifier::external_body]
pub fn u8_from_bits(a: u32) -> (r: u8)
    ensures
        r == u8_of_f32(a),
{
    Single::from_bits(a as u128).to_u128(8).value as u8
}

/// Relies on `rustc_apfloat::Float::to_u128`: rounds toward zero and
/// saturates to the 64-bit range, NaN goes to zero, as the language's
/// float-to-int cast does.
#[verifier::external_body]
pub fn u64_from_bits(a: u32) -> (r: u64)
    ensures
        r == u64_of_f32(a),
{
    Single::from_bits(a as u128).to_u128(64).value as u64
}

/// `a > b`, computed as `b < a`.
pub fn gt_bits(a: u32, b: u32) -> (r: bool)
    ensures
        r == gt_of(a, b),
{
    lt_bits(b, a)
}

/// `a >= b`, computed as `b <= a`.
pub fn ge_bits(a: u32, b: u32) -> (r: bool)
    ensures
        r == ge_of(a, b),
{
    le_bits(b, a)
}

/// IEEE-754 negation of a bit pattern.
pub fn neg_bits(a: u32) -> (r: u32)
    ensures
        r == neg_of(a),
{
    a ^ SIGN_BIT
}

pub open spec fn abs_of(x: u32) -> u32 {
    if ge_of(x, F_ZERO) {
        x
    } else {
        neg_of(x)
    }
}

pub open spec fn min_of(x: u32, a: u32) -> u32 {
    if lt_of(a, x) {
        a
    } else {
        x
    }
}

pub open spec fn max_of(x: u32, a: u32) -> u32 {
    if gt_of(a, x) {
        a
    } else {
        x
    }
}

pub open spec fn clamp_of(x: u32, a: u32, b: u32) -> u32 {
    if lt_of(x, a) {
        a
    } else if gt_of(x, b) {
        b
    } else {
        x
    }
}

/// The absolute value, by the sign test the distance formulas use.
pub fn abs(x: u32) -> (r: u32)
    ensures
        r == abs_of(x),
{
    if ge_bits(x, F_ZERO) {
        x
    } else {
        neg_bits(x)
    }
}

/// The smaller of two floats, `x` when they compare equal or unordered.
pub fn min(x: u32, a: u32) -> (r: u32)
    ensures
        r == min_of(x, a),
{
    if lt_bits(a, x) {
        a
    } else {
        x
    }
}

/// The larger of two floats, `x` when they compare equal or unordered.
pub fn max(x: u32, a: u32) -> (r: u32)
    ensures
        r == max_of(x, a),
{
    if gt_bits(a, x) {
        a
    } else {
        x
    }
}

/// `x` pushed into `[a, b]`: `a` where `x < a`, `b` where `x > b`.
pub fn clamp(x: u32, a: u32, b: u32) -> (r: u32)
    ensures
        r == clamp_of(x, a, b),
{
    if lt_bits(x, a) {
        return a;
    }
    if gt_bits(x, b) {
        return b;
    }
    x
}

} // verus!
