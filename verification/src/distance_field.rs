//! The primitives: each is one implicit surface with a signed-distance
//! function evaluated in its own local frame. A primitive carries its
//! position, a per-variant size triple, an optional rotation matrix
//! (only boxes and tori are built with one), and its albedo.

use vstd::prelude::*;
use crate::color::Rgb;
use crate::fbits::{
    abs, abs_of, add_of, add_bits, sub_of, sub_bits, mul_of, div_of, div_bits, mul_bits, min,
    min_of, max, max_of, F_ZERO, F_180, F_PI,
};
use crate::rotation::{get_rotation_matrix, spec_rotation_matrix};
use crate::vec3::{
    Vec3, Mat3, spec_vec3_sub, vec3_sub, spec_vec3_len, vec3_len, spec_vec2_len, vec2_len,
    spec_col_mat3_transform, col_mat3_transform,
};

verus! {

/// The variant of an implicit surface.
#[allow(non_camel_case_types)]
#[derive(Clone, Copy, Debug, PartialEq, Eq, Structural)]
pub enum SDF_Type {
    SDF_Sphere,
    SDF_Box,
    SDF_Torus,
    SDF_Plane,
}

/// One implicit surface. The size triple means: sphere radius in all
/// three slots; box half-extents; torus major and minor radii with the
/// third slot unused; nothing for a plane, whose height is the y of its
/// position.
#[derive(Clone, Copy, Debug, PartialEq, Eq, Structural)]
pub struct SDF {
    pub position: Vec3,
    pub size: Vec3,
    pub rotation: Option<Mat3>,
    pub sdf_type: SDF_Type,
    pub colour: Rgb,
}

/// Degrees to radians as the rotating constructors do it: divide by
/// 180 and multiply by the 3.14 approximation of pi.
pub open spec fn spec_deg_to_rad(a: u32) -> u32 {
    mul_of(div_of(a, F_180), F_PI)
}

/// All three Euler angles brought from degrees to radians.
pub open spec fn spec_vec3_deg_to_rad(r: Vec3) -> Vec3 {
    Vec3 { x: spec_deg_to_rad(r.x), y: spec_deg_to_rad(r.y), z: spec_deg_to_rad(r.z) }
}

fn deg_to_rad(a: u32) -> (r: u32)
    ensures
        r == spec_deg_to_rad(a),
{
    mul_bits(div_bits(a, F_180), F_PI)
}

/// The point brought into the primitive's local frame: the position is
/// subtracted, then the rotation matrix, if any, is applied.
pub open spec fn spec_local_point(s: SDF, p: Vec3) -> Vec3 {
    let lp = spec_vec3_sub(p, s.position);
    match s.rotation {
        Some(m) => spec_col_mat3_transform(m, lp),
        None => lp,
    }
}

/// The distance value of one primitive at a point, exactly as
/// `get_distance` computes it:
/// sphere: the length of the local point minus the radius;
/// box: the length of the positive part of `|local| - size`, plus the
/// smallest coordinate of `|local| - size` capped at zero;
/// torus: distance of `(length of local xz minus the major radius,
/// local y)` minus the minor radius; plane: the local y.
pub open spec fn spec_sdf_distance(s: SDF, p: Vec3) -> u32 {
    let l = spec_local_point(s, p);
    match s.sdf_type {
        SDF_Type::SDF_Sphere => sub_of(spec_vec3_len(l), s.size.x),
        SDF_Type::SDF_Box => {
            let q = spec_vec3_sub(
                Vec3 { x: abs_of(l.x), y: abs_of(l.y), z: abs_of(l.z) },
                s.size,
            );
            let a = spec_vec3_len(
                Vec3 {
                    x: max_of(q.x, F_ZERO),
                    y: max_of(q.y, F_ZERO),
                    z: max_of(q.z, F_ZERO),
                },
            );
            let b = min_of(max_of(q.x, max_of(q.y, q.z)), F_ZERO);
            add_of(a, b)
        },
        SDF_Type::SDF_Torus => {
            let q0 = sub_of(spec_vec2_len(l.x, l.z), s.size.x);
            sub_of(spec_vec2_len(q0, l.y), s.size.y)
        },
        SDF_Type::SDF_Plane => l.y,
    }
}

/// The primitive after its rotation is rebuilt from fresh Euler angles
/// in degrees: a no-op on a primitive built without a rotation slot.
pub open spec fn spec_update_rotation(s: SDF, new_rotation: Vec3) -> SDF {
    match s.rotation {
        Some(m) => SDF {
            position: s.position,
            size: s.size,
            rotation: Some(spec_rotation_matrix(spec_vec3_deg_to_rad(new_rotation))),
            sdf_type: s.sdf_type,
            colour: s.colour,
        },
        None => s,
    }
}

/// The sphere's distance law: at every point `p`, a sphere's distance
/// value is exactly the length of `p` brought into the sphere's frame,
/// minus the radius. For a sphere at the origin that is the length of
/// `p` itself minus the radius.
pub proof fn lemma_sphere_distance(position: Vec3, radius: u32, colour: Rgb, p: Vec3)
    ensures
        spec_sdf_distance(
            SDF {
                position,
                size: Vec3 { x: radius, y: radius, z: radius },
                rotation: None::<Mat3>,
                sdf_type: SDF_Type::SDF_Sphere,
                colour,
            },
            p,
        ) == sub_of(spec_vec3_len(spec_vec3_sub(p, position)), radius),
{
}

/// Rebuilding the rotation twice from the same Euler angles leaves the
/// primitive exactly as one rebuild does: the matrix is a function of
/// the angles alone, so the second rebuild writes the same bits.
pub proof fn lemma_update_rotation_idempotent(s: SDF, new_rotation: Vec3)
    ensures
        spec_update_rotation(spec_update_rotation(s, new_rotation), new_rotation)
            == spec_update_rotation(s, new_rotation),
{
}

impl SDF {
    /// A sphere: the radius fills all three size slots; never rotated.
    pub fn new_sphere(position: Vec3, radius: u32, colour: Rgb) -> (s: SDF)
        ensures
            s == (SDF {
                position,
                size: Vec3 { x: radius, y: radius, z: radius },
                rotation: None::<Mat3>,
                sdf_type: SDF_Type::SDF_Sphere,
                colour,
            }),
    {
        SDF {
            position,
            size: Vec3 { x: radius, y: radius, z: radius },
            rotation: None,
            sdf_type: SDF_Type::SDF_Sphere,
            colour,
        }
    }

    /// A box with the given half-extents, rotated by Euler angles that
    /// are taken as radians, as given.
    pub fn new_cube(position: Vec3, size: Vec3, colour: Rgb, rotation: Vec3) -> (s: SDF)
        ensures
            s == (SDF {
                position,
                size,
                rotation: Some(spec_rotation_matrix(rotation)),
                sdf_type: SDF_Type::SDF_Box,
                colour,
            }),
    {
        SDF {
            position,
            size,
            rotation: Some(get_rotation_matrix(rotation)),
            sdf_type: SDF_Type::SDF_Box,
            colour,
        }
    }

    /// A torus with major radius `t.0` and minor radius `t.1`, rotated
    /// by Euler angles given in degrees.
    pub fn new_torus(position: Vec3, t: (u32, u32), colour: Rgb, rotation: Vec3) -> (s: SDF)
        ensures
            s == (SDF {
                position,
                size: Vec3 { x: t.0, y: t.1, z: F_ZERO },
                rotation: Some(spec_rotation_matrix(spec_vec3_deg_to_rad(rotation))),
                sdf_type: SDF_Type::SDF_Torus,
                colour,
            }),
    {
        SDF {
            position,
            size: Vec3 { x: t.0, y: t.1, z: F_ZERO },
            rotation: Some(get_rotation_matrix(Vec3 {
                x: deg_to_rad(rotation.x),
                y: deg_to_rad(rotation.y),
                z: deg_to_rad(rotation.z),
            })),
            sdf_type: SDF_Type::SDF_Torus,
            colour,
        }
    }

    /// A plane at the given height, which is stored as the y of the
    /// position; never rotated.
    pub fn new_plane(height: u32, colour: Rgb) -> (s: SDF)
        ensures
            s == (SDF {
                position: Vec3 { x: F_ZERO, y: height, z: F_ZERO },
                size: Vec3 { x: F_ZERO, y: F_ZERO, z: F_ZERO },
                rotation: None::<Mat3>,
                sdf_type: SDF_Type::SDF_Plane,
                colour,
            }),
    {
        SDF {
            position: Vec3 { x: F_ZERO, y: height, z: F_ZERO },
            size: Vec3 { x: F_ZERO, y: F_ZERO, z: F_ZERO },
            rotation: None,
            sdf_type: SDF_Type::SDF_Plane,
            colour,
        }
    }

    /// Rebuilds the rotation from fresh Euler angles in degrees; a no-op
    /// when the primitive was built without a rotation.
    pub fn update_rotation(&mut self, new_rotation: Vec3)
        ensures
            *final(self) == spec_update_rotation(*old(self), new_rotation),
    {
        if self.rotation.is_some() {
            self.rotation = Some(get_rotation_matrix(Vec3 {
                x: deg_to_rad(new_rotation.x),
                y: deg_to_rad(new_rotation.y),
                z: deg_to_rad(new_rotation.z),
            }));
        }
    }

    /// The signed distance from `ray_position` to this primitive's
    /// surface, by the per-variant formula in its local frame.
    pub fn get_distance(&self, ray_position: Vec3) -> (d: u32)
        ensures
            d == spec_sdf_distance(*self, ray_position),
    {
        let mut local_pos = vec3_sub(ray_position, self.position);
        match &self.rotation {
            Some(m) => {
                local_pos = col_mat3_transform(m, local_pos);
            },
            None => {},
        }
        match self.sdf_type {
            SDF_Type::SDF_Sphere => sub_bits(vec3_len(local_pos), self.size.x),
            SDF_Type::SDF_Box => {
                let apos = Vec3 {
                    x: abs(local_pos.x),
                    y: abs(local_pos.y),
                    z: abs(local_pos.z),
                };
                let q = vec3_sub(apos, self.size);
                let a = vec3_len(Vec3 {
                    x: max(q.x, F_ZERO),
                    y: max(q.y, F_ZERO),
                    z: max(q.z, F_ZERO),
                });
                let b = min(max(q.x, max(q.y, q.z)), F_ZERO);
                add_bits(a, b)
            },
            SDF_Type::SDF_Torus => {
                let q0 = sub_bits(vec2_len(local_pos.x, local_pos.z), self.size.x);
                sub_bits(vec2_len(q0, local_pos.y), self.size.y)
            },
            SDF_Type::SDF_Plane => local_pos.y,
        }
    }
}

} // verus!
