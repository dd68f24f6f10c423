//! The scene: an append-only list of primitives and one camera, with the
//! nearest-surface query, the tetrahedron normal estimate, ray
//! generation, and the sphere-marching loop itself.

use vstd::prelude::*;
use crate::camera::Camera;
use crate::color::Color;
use crate::distance_field::{SDF, spec_sdf_distance, spec_update_rotation};
use crate::fbits::{
    add_of, add_bits, mul_of, mul_bits, lt_of, lt_bits, gt_of, gt_bits, ge_of, ge_bits, F_ZERO,
};
use crate::lighting::{shade, spec_shade};
use crate::raymarching::{Ray, spec_ray_advance, spec_generate_ray, generate_ray};
use crate::vec3::{Vec3, spec_vec3_add, vec3_add, spec_vec3_normalized};

verus! {

/// A ray is marched at most this many steps before it is given up as a miss.
pub const MAX_STEPS: usize = 64;

/// The bit pattern of 0.1: a ray closer than this to a surface has hit it.
pub const F_HIT_EPSILON: u32 = 0x3DCC_CCCD;

/// The bit pattern of 64.0: a ray farther than this from every surface
/// has escaped the scene.
pub const F_MAX_MARCH_DISTANCE: u32 = 0x4280_0000;

/// The bit pattern of 4096.0: the distance the nearest-surface scan
/// reports when the scene holds no primitive at all.
pub const F_NEAREST_INIT: u32 = 0x4580_0000;

/// The bit pattern of 0.00028865: the positive tetrahedron offset used
/// by the normal estimate.
pub const F_NORMAL_EPS: u32 = 0x3997_55F2;

/// The bit pattern of -0.00028865: the negative tetrahedron offset.
pub const F_NORMAL_EPS_NEG: u32 = 0xB997_55F2;

/// The nearest surface among the first `n` primitives: the scan starts
/// from the first primitive, so whenever there is one it reports an
/// index, however large every distance is. The least distance wins
/// under strict comparison, so on an exact tie the primitive inserted
/// first keeps the slot. Only with no primitive at all is the answer
/// 4096.0 with the index `-1`.
pub open spec fn spec_nearest_upto(fields: Seq<SDF>, p: Vec3, n: int) -> (u32, int)
    decreases n,
{
    if n <= 0 {
        (F_NEAREST_INIT, -1)
    } else if n == 1 {
        (spec_sdf_distance(fields[0], p), 0)
    } else {
        let prev = spec_nearest_upto(fields, p, n - 1);
        let d = spec_sdf_distance(fields[n - 1], p);
        if lt_of(d, prev.0) {
            (d, n - 1)
        } else {
            prev
        }
    }
}

/// The nearest surface over the whole primitive list.
pub open spec fn spec_nearest(fields: Seq<SDF>, p: Vec3) -> (u32, int) {
    spec_nearest_upto(fields, p, fields.len() as int)
}

/// The index the scan reports is a valid position among the first `n`
/// primitives whenever there are any, and `-1` only for none.
pub proof fn lemma_nearest_upto_bounds(fields: Seq<SDF>, p: Vec3, n: int)
    requires
        n >= 0,
    ensures
        -1 <= spec_nearest_upto(fields, p, n).1 < n,
        n > 0 ==> spec_nearest_upto(fields, p, n).1 >= 0,
    decreases n,
{
    if n > 1 {
        lemma_nearest_upto_bounds(fields, p, n - 1);
    }
}

/// The tetrahedron normal estimate at a point: four offset samples of
/// the nearest-distance field, combined into a weighted sum and
/// normalized.
pub open spec fn spec_normal(fields: Seq<SDF>, position: Vec3) -> Vec3 {
    let p1 = Vec3 { x: F_NORMAL_EPS, y: F_NORMAL_EPS_NEG, z: F_NORMAL_EPS_NEG };
    let p2 = Vec3 { x: F_NORMAL_EPS_NEG, y: F_NORMAL_EPS_NEG, z: F_NORMAL_EPS };
    let p3 = Vec3 { x: F_NORMAL_EPS_NEG, y: F_NORMAL_EPS, z: F_NORMAL_EPS_NEG };
    let p4 = Vec3 { x: F_NORMAL_EPS, y: F_NORMAL_EPS, z: F_NORMAL_EPS };
    let d1 = spec_nearest(fields, spec_vec3_add(position, p1)).0;
    let d2 = spec_nearest(fields, spec_vec3_add(position, p2)).0;
    let d3 = spec_nearest(fields, spec_vec3_add(position, p3)).0;
    let d4 = spec_nearest(fields, spec_vec3_add(position, p4)).0;
    spec_vec3_normalized(
        Vec3 {
            x: add_of(
                add_of(add_of(mul_of(p1.x, d1), mul_of(p2.x, d2)), mul_of(p3.x, d3)),
                mul_of(p4.x, d4),
            ),
            y: add_of(
                add_of(add_of(mul_of(p1.y, d1), mul_of(p2.y, d2)), mul_of(p3.y, d3)),
                mul_of(p4.y, d4),
            ),
            z: add_of(
                add_of(add_of(mul_of(p1.z, d1), mul_of(p2.z, d2)), mul_of(p3.z, d3)),
                mul_of(p4.z, d4),
            ),
        },
    )
}

/// What a finished march displays: a hit shades the primitive the scan
/// reported, a scan that reported no primitive is the miss cell, a
/// blank on red.
pub open spec fn spec_march_outcome(fields: Seq<SDF>, pos: Vec3, dir: Vec3, idx: int) -> (
    char,
    Color,
) {
    if idx >= 0 {
        spec_shade(fields[idx].colour, spec_normal(fields, pos), dir)
    } else {
        (' ', Color::Red)
    }
}

/// The marching state machine from a given position and step count: it
/// stops as a hit when the nearest distance is within the epsilon,
/// stops as a miss when the step budget is spent without converging or
/// when the distance reaches the escape bound, and otherwise advances
/// by the nearest distance.
pub open spec fn spec_march_from(fields: Seq<SDF>, pos: Vec3, dir: Vec3, steps: nat) -> (
    char,
    Color,
)
    decreases MAX_STEPS - steps,
{
    let nr = spec_nearest(fields, pos);
    if !gt_of(nr.0, F_HIT_EPSILON) {
        spec_march_outcome(fields, pos, dir, nr.1)
    } else if steps >= MAX_STEPS {
        (' ', Color::Red)
    } else if ge_of(nr.0, F_MAX_MARCH_DISTANCE) {
        (' ', Color::Red)
    } else {
        spec_march_from(fields, spec_ray_advance(pos, dir, nr.0), dir, steps + 1)
    }
}

/// What marching a ray through the scene displays.
pub open spec fn spec_march(fields: Seq<SDF>, ray: Ray) -> (char, Color) {
    spec_march_from(fields, ray.position, ray.direction, 0)
}

/// The step budget is a hard stop: with `MAX_STEPS` steps spent, a ray
/// still farther than the hit epsilon from every surface takes no
/// further step and is a miss; one already within the epsilon settles
/// on the scan's outcome as any converged ray does. Together with the
/// hit and escape exits this bounds every march by `MAX_STEPS` advances.
pub proof fn lemma_march_budget_stops(fields: Seq<SDF>, pos: Vec3, dir: Vec3)
    ensures
        gt_of(spec_nearest(fields, pos).0, F_HIT_EPSILON) ==> spec_march_from(
            fields,
            pos,
            dir,
            MAX_STEPS as nat,
        ) == (' ', Color::Red),
        !gt_of(spec_nearest(fields, pos).0, F_HIT_EPSILON) ==> spec_march_from(
            fields,
            pos,
            dir,
            MAX_STEPS as nat,
        ) == spec_march_outcome(fields, pos, dir, spec_nearest(fields, pos).1),
{
}

/// An ordered list of primitives (insertion order, ties in the scan go
/// to the earlier one) and one camera.
#[derive(Clone)]
pub struct Scene {
    pub distance_fields: Vec<SDF>,
    pub camera: Camera,
}

impl Scene {
    /// An empty scene with the camera at the origin.
    pub fn new() -> (s: Scene)
        ensures
            s.distance_fields@ == Seq::<SDF>::empty(),
            s.camera == (Camera {
                eye: Vec3 { x: F_ZERO, y: F_ZERO, z: F_ZERO },
                yaw: F_ZERO,
                roll: F_ZERO,
            }),
    {
        Scene {
            distance_fields: Vec::new(),
            camera: Camera::new(Vec3 { x: F_ZERO, y: F_ZERO, z: F_ZERO }, F_ZERO, F_ZERO),
        }
    }

    /// Appends a primitive and returns its index, which identifies it
    /// for later rotation updates.
    pub fn push_sdf(&mut self, sdf: SDF) -> (idx: usize)
        ensures
            final(self).distance_fields@ == old(self).distance_fields@.push(sdf),
            final(self).camera == old(self).camera,
            idx == old(self).distance_fields@.len(),
    {
        let idx = self.distance_fields.len();
        self.distance_fields.push(sdf);
        idx
    }

    /// Rebuilds the rotation of the primitive at `idx` from Euler angles
    /// in degrees.
    pub fn update_rotation(&mut self, idx: usize, rotation: Vec3)
        requires
            idx < old(self).distance_fields@.len(),
        ensures
            final(self).distance_fields@ == old(self).distance_fields@.update(
                idx as int,
                spec_update_rotation(old(self).distance_fields@[idx as int], rotation),
            ),
            final(self).camera == old(self).camera,
    {
        let sdf = &mut self.distance_fields[idx];
        sdf.update_rotation(rotation);
    }

    /// The nearest surface to `position`: the least primitive distance
    /// and the index of the first primitive attaining it. Only an empty
    /// list yields no index — then the answer is 4096.0 and `-1`.
    pub fn get_distance(&self, position: Vec3) -> (r: (u32, i32))
        requires
            self.distance_fields@.len() <= 0x7FFF_FFFF,
        ensures
            r.0 == spec_nearest(self.distance_fields@, position).0,
            r.1 as int == spec_nearest(self.distance_fields@, position).1,
    {
        let n = self.distance_fields.len();
        if n == 0 {
            return (F_NEAREST_INIT, -1);
        }

        let mut closest_distance: u32 = self.distance_fields[0].get_distance(position);
        let mut idx: i32 = 0;

        for i in 1..n
            invariant
                n == self.distance_fields@.len(),
                1 <= n <= 0x7FFF_FFFF,
                closest_distance == spec_nearest_upto(self.distance_fields@, position, i as int).0,
                idx as int == spec_nearest_upto(self.distance_fields@, position, i as int).1,
        {
            let dist = self.distance_fields[i].get_distance(position);
            if lt_bits(dist, closest_distance) {
                closest_distance = dist;
                idx = i as i32;
            }
        }

        (closest_distance, idx)
    }

    /// The estimated surface normal at `position`, by four tetrahedron
    /// offset samples of the nearest-distance field.
    pub fn get_normal(&self, position: Vec3) -> (normal: Vec3)
        requires
            self.distance_fields@.len() <= 0x7FFF_FFFF,
        ensures
            normal == spec_normal(self.distance_fields@, position),
    {
        let p1 = Vec3 { x: F_NORMAL_EPS, y: F_NORMAL_EPS_NEG, z: F_NORMAL_EPS_NEG };
        let p2 = Vec3 { x: F_NORMAL_EPS_NEG, y: F_NORMAL_EPS_NEG, z: F_NORMAL_EPS };
        let p3 = Vec3 { x: F_NORMAL_EPS_NEG, y: F_NORMAL_EPS, z: F_NORMAL_EPS_NEG };
        let p4 = Vec3 { x: F_NORMAL_EPS, y: F_NORMAL_EPS, z: F_NORMAL_EPS };

        let d1 = self.get_distance(vec3_add(position, p1)).0;
        let d2 = self.get_distance(vec3_add(position, p2)).0;
        let d3 = self.get_distance(vec3_add(position, p3)).0;
        let d4 = self.get_distance(vec3_add(position, p4)).0;

        crate::vec3::vec3_normalized(
            Vec3 {
                x: add_bits(
                    add_bits(add_bits(mul_bits(p1.x, d1), mul_bits(p2.x, d2)), mul_bits(p3.x, d3)),
                    mul_bits(p4.x, d4),
                ),
                y: add_bits(
                    add_bits(add_bits(mul_bits(p1.y, d1), mul_bits(p2.y, d2)), mul_bits(p3.y, d3)),
                    mul_bits(p4.y, d4),
                ),
                z: add_bits(
                    add_bits(add_bits(mul_bits(p1.z, d1), mul_bits(p2.z, d2)), mul_bits(p3.z, d3)),
                    mul_bits(p4.z, d4),
                ),
            },
        )
    }

    /// The ray for one screen cell under this scene's camera yaw.
    pub fn generate_ray(&self, term_size: (u16, u16), px: u16, py: u16) -> (r: Ray)
        requires
            px <= term_size.0,
            py <= term_size.1,
        ensures
            r == spec_generate_ray(self.camera.yaw, term_size, px, py),
    {
        generate_ray(self.camera.yaw, term_size, px, py)
    }

    /// Marches a ray to completion and returns the cell it displays:
    /// the shaded hit, or a blank on red once the ray escapes or the
    /// step budget is spent while every surface is still farther than
    /// the hit epsilon.
    pub fn march(&self, ray: Ray) -> (res: (char, Color))
        requires
            self.distance_fields@.len() <= 0x7FFF_FFFF,
        ensures
            res == spec_march(self.distance_fields@, ray),
    {
        let mut r = ray;
        let nr0 = self.get_distance(r.position);
        let mut dist: u32 = nr0.0;
        let mut idx: i32 = nr0.1;
        let mut steps: usize = 0;
        let mut cont: bool = gt_bits(dist, F_HIT_EPSILON);

        while cont && steps < MAX_STEPS
            invariant
                self.distance_fields@.len() <= 0x7FFF_FFFF,
                steps <= MAX_STEPS,
                cont == gt_of(dist, F_HIT_EPSILON),
                dist == spec_nearest(self.distance_fields@, r.position).0,
                idx as int == spec_nearest(self.distance_fields@, r.position).1,
                r.direction == ray.direction,
                spec_march_from(self.distance_fields@, r.position, r.direction, steps as nat)
                    == spec_march(self.distance_fields@, ray),
            decreases MAX_STEPS - steps,
        {
            if ge_bits(dist, F_MAX_MARCH_DISTANCE) {
                return (' ', Color::Red);
            }
            r.step(dist);
            let nr = self.get_distance(r.position);
            dist = nr.0;
            idx = nr.1;
            steps = steps + 1;
            cont = gt_bits(dist, F_HIT_EPSILON);
        }

        if cont {
            // the step budget ran out before any surface came within
            // the epsilon: a miss
            return (' ', Color::Red);
        }

        proof {
            lemma_nearest_upto_bounds(
                self.distance_fields@,
                r.position,
                self.distance_fields@.len() as int,
            );
        }

        if idx >= 0 {
            let sdf = &self.distance_fields[idx as usize];
            let normal = self.get_normal(r.position);
            let shaded = shade(sdf.colour, normal, r.direction);
            return shaded;
        }

        (' ', Color::Red)
    }
}

} // verus!
