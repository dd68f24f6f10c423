//! Vectors and 3x3 matrices of single-precision bit patterns, with the
//! componentwise operations the renderer needs. Every operation here is
//! verified: each is an exact composition of the scalar operations of
//! `fbits`, stated by a spec function of the same shape.

use vstd::prelude::*;
use crate::fbits::{
    add_of, add_bits, sub_of, sub_bits, mul_of, mul_bits, div_of, div_bits, sqrt_of, sqrt_bits,
    neg_of, neg_bits, F_ONE,
};

verus! {

/// A point or direction; each component is the bit pattern of a
/// single-precision float.
#[derive(Clone, Copy, Debug, PartialEq, Eq, Structural)]
pub struct Vec3 {
    pub x: u32,
    pub y: u32,
    pub z: u32,
}

/// A 3x3 matrix, row by row; each entry is a single-precision bit pattern.
#[derive(Clone, Copy, Debug, PartialEq, Eq, Structural)]
pub struct Mat3 {
    pub r0: Vec3,
    pub r1: Vec3,
    pub r2: Vec3,
}

pub open spec fn spec_vec3_add(a: Vec3, b: Vec3) -> Vec3 {
    Vec3 { x: add_of(a.x, b.x), y: add_of(a.y, b.y), z: add_of(a.z, b.z) }
}

pub open spec fn spec_vec3_sub(a: Vec3, b: Vec3) -> Vec3 {
    Vec3 { x: sub_of(a.x, b.x), y: sub_of(a.y, b.y), z: sub_of(a.z, b.z) }
}

pub open spec fn spec_vec3_neg(a: Vec3) -> Vec3 {
    Vec3 { x: neg_of(a.x), y: neg_of(a.y), z: neg_of(a.z) }
}

/// The dot product, summed left to right.
pub open spec fn spec_vec3_dot(a: Vec3, b: Vec3) -> u32 {
    add_of(add_of(mul_of(a.x, b.x), mul_of(a.y, b.y)), mul_of(a.z, b.z))
}

/// The Euclidean length: the square root of the dot product with itself.
pub open spec fn spec_vec3_len(a: Vec3) -> u32 {
    sqrt_of(spec_vec3_dot(a, a))
}

/// The length of a two-component vector.
pub open spec fn spec_vec2_len(x: u32, y: u32) -> u32 {
    sqrt_of(add_of(mul_of(x, x), mul_of(y, y)))
}

/// Normalization as the renderer performs it: each component multiplied
/// by the reciprocal of the length.
pub open spec fn spec_vec3_normalized(a: Vec3) -> Vec3 {
    let inv = div_of(F_ONE, spec_vec3_len(a));
    Vec3 { x: mul_of(a.x, inv), y: mul_of(a.y, inv), z: mul_of(a.z, inv) }
}

/// A vector transformed by the matrix read column-first: component `i` of
/// the result is the dot product of column `i` with the vector.
pub open spec fn spec_col_mat3_transform(m: Mat3, a: Vec3) -> Vec3 {
    Vec3 {
        x: spec_vec3_dot(Vec3 { x: m.r0.x, y: m.r1.x, z: m.r2.x }, a),
        y: spec_vec3_dot(Vec3 { x: m.r0.y, y: m.r1.y, z: m.r2.y }, a),
        z: spec_vec3_dot(Vec3 { x: m.r0.z, y: m.r1.z, z: m.r2.z }, a),
    }
}

/// One row of a row-matrix product: the dot products of row `i` of `a`
/// with the three columns of `b`.
pub open spec fn spec_row_mat3_mul_row(r: Vec3, b: Mat3) -> Vec3 {
    Vec3 {
        x: spec_vec3_dot(r, Vec3 { x: b.r0.x, y: b.r1.x, z: b.r2.x }),
        y: spec_vec3_dot(r, Vec3 { x: b.r0.y, y: b.r1.y, z: b.r2.y }),
        z: spec_vec3_dot(r, Vec3 { x: b.r0.z, y: b.r1.z, z: b.r2.z }),
    }
}

/// The product of two row matrices.
pub open spec fn spec_row_mat3_mul(a: Mat3, b: Mat3) -> Mat3 {
    Mat3 {
        r0: spec_row_mat3_mul_row(a.r0, b),
        r1: spec_row_mat3_mul_row(a.r1, b),
        r2: spec_row_mat3_mul_row(a.r2, b),
    }
}

pub fn vec3_add(a: Vec3, b: Vec3) -> (r: Vec3)
    ensures
        r == spec_vec3_add(a, b),
{
    Vec3 { x: add_bits(a.x, b.x), y: add_bits(a.y, b.y), z: add_bits(a.z, b.z) }
}

pub fn vec3_sub(a: Vec3, b: Vec3) -> (r: Vec3)
    ensures
        r == spec_vec3_sub(a, b),
{
    Vec3 { x: sub_bits(a.x, b.x), y: sub_bits(a.y, b.y), z: sub_bits(a.z, b.z) }
}

pub fn vec3_neg(a: Vec3) -> (r: Vec3)
    ensures
        r == spec_vec3_neg(a),
{
    Vec3 { x: neg_bits(a.x), y: neg_bits(a.y), z: neg_bits(a.z) }
}

pub fn vec3_dot(a: Vec3, b: Vec3) -> (r: u32)
    ensures
        r == spec_vec3_dot(a, b),
{
    add_bits(add_bits(mul_bits(a.x, b.x), mul_bits(a.y, b.y)), mul_bits(a.z, b.z))
}

pub fn vec3_len(a: Vec3) -> (r: u32)
    ensures
        r == spec_vec3_len(a),
{
    sqrt_bits(vec3_dot(a, a))
}

pub fn vec2_len(x: u32, y: u32) -> (r: u32)
    ensures
        r == spec_vec2_len(x, y),
{
    sqrt_bits(add_bits(mul_bits(x, x), mul_bits(y, y)))
}

pub fn vec3_normalized(a: Vec3) -> (r: Vec3)
    ensures
        r == spec_vec3_normalized(a),
{
    let inv = div_bits(F_ONE, vec3_len(a));
    Vec3 { x: mul_bits(a.x, inv), y: mul_bits(a.y, inv), z: mul_bits(a.z, inv) }
}

pub fn col_mat3_transform(m: &Mat3, a: Vec3) -> (r: Vec3)
    ensures
        r == spec_col_mat3_transform(*m, a),
{
    Vec3 {
        x: vec3_dot(Vec3 { x: m.r0.x, y: m.r1.x, z: m.r2.x }, a),
        y: vec3_dot(Vec3 { x: m.r0.y, y: m.r1.y, z: m.r2.y }, a),
        z: vec3_dot(Vec3 { x: m.r0.z, y: m.r1.z, z: m.r2.z }, a),
    }
}

pub fn row_mat3_mul(a: &Mat3, b: &Mat3) -> (r: Mat3)
    ensures
        r == spec_row_mat3_mul(*a, *b),
{
    Mat3 {
        r0: row_mat3_mul_row(a.r0, b),
        r1: row_mat3_mul_row(a.r1, b),
        r2: row_mat3_mul_row(a.r2, b),
    }
}

fn row_mat3_mul_row(r: Vec3, b: &Mat3) -> (out: Vec3)
    ensures
        out == spec_row_mat3_mul_row(r, *b),
{
    Vec3 {
        x: vec3_dot(r, Vec3 { x: b.r0.x, y: b.r1.x, z: b.r2.x }),
        y: vec3_dot(r, Vec3 { x: b.r0.y, y: b.r1.y, z: b.r2.y }),
        z: vec3_dot(r, Vec3 { x: b.r0.z, y: b.r1.z, z: b.r2.z }),
    }
}

} // verus!
