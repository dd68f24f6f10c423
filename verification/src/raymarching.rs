//! Rays: a position/direction cursor marched through the scene, and the
//! projection that turns a screen cell into a world-space ray.

use vstd::prelude::*;
use crate::fbits::{
    add_of, add_bits, sub_of, sub_bits, mul_of, mul_bits, div_of, div_bits, neg_of, neg_bits,
    cos_of, cos_bits, sin_of, sin_bits, f32_of_u16, bits_of_u16, F_ZERO, F_TWO, F_HALF, F_180,
    F_PI,
};
use crate::vec3::{Vec3, spec_vec3_add, vec3_add, spec_vec3_normalized, vec3_normalized};

verus! {

/// A ray: its origin and unit direction, and the point its marching has
/// reached. The marched position starts at the zero vector, not at the
/// origin field; the camera eye sits at the world origin, so the two
/// coincide in every frame this design produces.
#[derive(Clone, Copy, Debug, PartialEq, Eq, Structural)]
pub struct Ray {
    pub origin: Vec3,
    pub direction: Vec3,
    pub position: Vec3,
}

/// Where a ray stands after advancing `distance` along its direction:
/// each component of the direction scaled by `distance`, added to the
/// current position.
pub open spec fn spec_ray_advance(position: Vec3, direction: Vec3, distance: u32) -> Vec3 {
    spec_vec3_add(
        position,
        Vec3 {
            x: mul_of(direction.x, distance),
            y: mul_of(direction.y, distance),
            z: mul_of(direction.z, distance),
        },
    )
}

impl Ray {
    pub fn new(origin: Vec3, direction: Vec3) -> (r: Ray)
        ensures
            r == (Ray { origin, direction, position: Vec3 { x: F_ZERO, y: F_ZERO, z: F_ZERO } }),
    {
        Ray { origin, direction, position: Vec3 { x: F_ZERO, y: F_ZERO, z: F_ZERO } }
    }

    /// Advances the marched position by `distance` along the direction.
    pub fn step(&mut self, distance: u32)
        ensures
            final(self).position == spec_ray_advance(
                old(self).position,
                old(self).direction,
                distance,
            ),
            final(self).origin == old(self).origin,
            final(self).direction == old(self).direction,
    {
        self.position = vec3_add(
            self.position,
            Vec3 {
                x: mul_bits(self.direction.x, distance),
                y: mul_bits(self.direction.y, distance),
                z: mul_bits(self.direction.z, distance),
            },
        );
    }
}

/// The direction a screen cell projects to, before the yaw is applied:
/// pixel coordinates are mirrored about both axes, scaled by the screen
/// height, squeezed to half width, and given a fixed depth of two.
pub open spec fn spec_screen_direction(term_size: (u16, u16), px: u16, py: u16) -> Vec3 {
    let fc0 = f32_of_u16((term_size.0 - px) as u16);
    let fc1 = f32_of_u16((term_size.1 - py) as u16);
    let w = f32_of_u16(term_size.0);
    let h = f32_of_u16(term_size.1);
    let p0 = div_of(add_of(neg_of(w), mul_of(F_TWO, fc0)), h);
    let p1 = div_of(add_of(neg_of(h), mul_of(F_TWO, fc1)), h);
    spec_vec3_normalized(Vec3 { x: mul_of(p0, F_HALF), y: p1, z: F_TWO })
}

/// The screen direction turned about the vertical axis by the yaw (in
/// degrees), with the sign of the turned x component flipped to match
/// the mirrored pixel coordinates.
pub open spec fn spec_generate_ray(camera_yaw: u32, term_size: (u16, u16), px: u16, py: u16) -> Ray {
    let dir = spec_screen_direction(term_size, px, py);
    let r = mul_of(div_of(camera_yaw, F_180), F_PI);
    let dx = sub_of(mul_of(dir.x, cos_of(r)), mul_of(dir.z, sin_of(r)));
    let dy = add_of(mul_of(dir.z, cos_of(r)), mul_of(dir.x, sin_of(r)));
    Ray {
        origin: Vec3 { x: F_ZERO, y: F_ZERO, z: F_ZERO },
        direction: Vec3 { x: neg_of(dx), y: dir.y, z: dy },
        position: Vec3 { x: F_ZERO, y: F_ZERO, z: F_ZERO },
    }
}

/// Builds the ray for one screen cell under the given yaw.
pub fn generate_ray(camera_yaw: u32, term_size: (u16, u16), px: u16, py: u16) -> (r: Ray)
    requires
        px <= term_size.0,
        py <= term_size.1,
    ensures
        r == spec_generate_ray(camera_yaw, term_size, px, py),
{
    let fc0 = bits_of_u16(term_size.0 - px);
    let fc1 = bits_of_u16(term_size.1 - py);
    let w = bits_of_u16(term_size.0);
    let h = bits_of_u16(term_size.1);
    let p0 = div_bits(add_bits(neg_bits(w), mul_bits(F_TWO, fc0)), h);
    let p1 = div_bits(add_bits(neg_bits(h), mul_bits(F_TWO, fc1)), h);
    let mut ray = Ray::new(
        Vec3 { x: F_ZERO, y: F_ZERO, z: F_ZERO },
        vec3_normalized(Vec3 { x: mul_bits(p0, F_HALF), y: p1, z: F_TWO }),
    );

    let r = mul_bits(div_bits(camera_yaw, F_180), F_PI);
    let dx = sub_bits(mul_bits(ray.direction.x, cos_bits(r)), mul_bits(ray.direction.z, sin_bits(r)));
    let dy = add_bits(mul_bits(ray.direction.z, cos_bits(r)), mul_bits(ray.direction.x, sin_bits(r)));
    ray.direction.x = neg_bits(dx);
    ray.direction.z = dy;

    ray
}

} // verus!
