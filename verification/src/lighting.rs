//! Shading: Lambertian scaling of the albedo by the light angle, and the
//! glyph picked from a fixed dark-to-bright ramp by a doubly attenuated
//! intensity (light angle times view angle — a deliberate stylistic
//! darkening, not a physical model).

use vstd::prelude::*;
use crate::color::{Color, Rgb};
use crate::fbits::{
    clamp, clamp_of, mul_of, mul_bits, f32_of_u8, bits_of_u8, u8_of_f32, u8_from_bits,
    u64_of_f32, u64_from_bits, F_ZERO, F_ONE, F_HALF,
};
use crate::vec3::{Vec3, spec_vec3_dot, vec3_dot, spec_vec3_neg, vec3_neg, spec_vec3_normalized,
    vec3_normalized};

verus! {

/// The bit pattern of 0.25: the x component of the fixed light vector.
pub const F_QUARTER: u32 = 0x3E80_0000;

/// The bit pattern of -0.5: the y component of the fixed light vector.
pub const F_NEG_HALF: u32 = 0xBF00_0000;

/// The bit pattern of 10.0: one more than the length of the glyph ramp.
pub const F_TEN: u32 = 0x4120_0000;

/// The fixed light direction before normalization: upper-front-right.
pub open spec fn spec_light_vector() -> Vec3 {
    Vec3 { x: F_QUARTER, y: F_NEG_HALF, z: F_HALF }
}

/// The normalized fixed light direction.
pub open spec fn spec_light_dir() -> Vec3 {
    spec_vec3_normalized(spec_light_vector())
}

/// Lambertian shading: a true-color albedo is scaled channel by channel
/// by the cosine of the light angle, clamped to the unit interval; any
/// other color is returned unchanged.
pub open spec fn spec_lambert(albedo: Color, normal: Vec3, light_dir: Vec3) -> Color {
    match albedo {
        Color::Rgb { r, g, b } => {
            let intensity = clamp_of(
                spec_vec3_dot(normal, spec_vec3_neg(light_dir)),
                F_ZERO,
                F_ONE,
            );
            Color::Rgb {
                r: u8_of_f32(mul_of(f32_of_u8(r), intensity)),
                g: u8_of_f32(mul_of(f32_of_u8(g), intensity)),
                b: u8_of_f32(mul_of(f32_of_u8(b), intensity)),
            }
        },
        _ => albedo,
    }
}

/// The glyph ramp, darkest to brightest.
pub open spec fn spec_gradient_char(i: usize) -> char {
    if i == 0 {
        ':'
    } else if i == 1 {
        ';'
    } else if i == 2 {
        '1'
    } else if i == 3 {
        '?'
    } else if i == 4 {
        '$'
    } else if i == 5 {
        'X'
    } else if i == 6 {
        '%'
    } else {
        if i == 7 {
            '#'
        } else {
            '@'
        }
    }
}

/// The ramp index for an intensity: the intensity times ten, truncated.
/// An intensity at the top of the unit interval yields ten, one past the
/// ramp, so the index is capped at the last glyph rather than read out
/// of range.
pub open spec fn spec_glyph_index(intensity: u32) -> usize {
    let raw = u64_of_f32(mul_of(intensity, F_TEN));
    if raw > 8 {
        8
    } else {
        raw as usize
    }
}

pub open spec fn spec_glyph(intensity: u32) -> char {
    spec_gradient_char(spec_glyph_index(intensity))
}

/// The doubly attenuated intensity of a hit: the clamped cosine to the
/// light times the clamped cosine to the viewer.
pub open spec fn spec_shade_intensity(normal: Vec3, view_direction: Vec3) -> u32 {
    let i1 = clamp_of(spec_vec3_dot(normal, spec_vec3_neg(spec_light_dir())), F_ZERO, F_ONE);
    let i2 = clamp_of(
        spec_vec3_dot(normal, spec_vec3_neg(spec_vec3_normalized(view_direction))),
        F_ZERO,
        F_ONE,
    );
    mul_of(i1, i2)
}

/// What one surface hit displays: the ramp glyph for the doubly
/// attenuated intensity, and the Lambertian color of the albedo.
pub open spec fn spec_shade(albedo: Rgb, normal: Vec3, view_direction: Vec3) -> (char, Color) {
    (
        spec_glyph(spec_shade_intensity(normal, view_direction)),
        spec_lambert(
            Color::Rgb { r: albedo.r, g: albedo.g, b: albedo.b },
            normal,
            spec_light_dir(),
        ),
    )
}

/// Lambertian shading of an albedo under a light direction.
pub fn lambert(albedo: Color, normal: Vec3, light_dir: Vec3) -> (c: Color)
    ensures
        c == spec_lambert(albedo, normal, light_dir),
{
    match albedo {
        Color::Rgb { r, g, b } => {
            let intensity = clamp(vec3_dot(normal, vec3_neg(light_dir)), F_ZERO, F_ONE);
            Color::Rgb {
                r: u8_from_bits(mul_bits(bits_of_u8(r), intensity)),
                g: u8_from_bits(mul_bits(bits_of_u8(g), intensity)),
                b: u8_from_bits(mul_bits(bits_of_u8(b), intensity)),
            }
        },
        _ => albedo,
    }
}

fn gradient_char(i: usize) -> (c: char)
    ensures
        c == spec_gradient_char(i),
{
    match i {
        0 => ':',
        1 => ';',
        2 => '1',
        3 => '?',
        4 => '$',
        5 => 'X',
        6 => '%',
        7 => '#',
        _ => '@',
    }
}

/// The displayed glyph and color of a hit: `albedo` of the hit
/// primitive, the estimated surface `normal`, and the (unnormalized)
/// direction the ray was cast along.
pub fn shade(albedo: Rgb, normal: Vec3, view_direction: Vec3) -> (res: (char, Color))
    ensures
        res == spec_shade(albedo, normal, view_direction),
{
    let light = vec3_normalized(Vec3 { x: F_QUARTER, y: F_NEG_HALF, z: F_HALF });
    let colour = lambert(Color::Rgb { r: albedo.r, g: albedo.g, b: albedo.b }, normal, light);

    let mut intensity = clamp(vec3_dot(normal, vec3_neg(light)), F_ZERO, F_ONE);
    intensity = mul_bits(
        intensity,
        clamp(vec3_dot(normal, vec3_neg(vec3_normalized(view_direction))), F_ZERO, F_ONE),
    );

    let raw = u64_from_bits(mul_bits(intensity, F_TEN));
    let idx: usize = if raw > 8 {
        8
    } else {
        raw as usize
    };
    (gradient_char(idx), colour)
}

} // verus!
