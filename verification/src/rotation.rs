//! The rotation matrix built from Euler angles, composed as yaw times
//! pitch times roll (`Ry * Rx * Rz`), in that fixed order.

use vstd::prelude::*;
use crate::fbits::{cos_of, cos_bits, sin_of, sin_bits, neg_of, neg_bits, F_ZERO, F_ONE};
use crate::vec3::{Vec3, Mat3, spec_row_mat3_mul, row_mat3_mul};

verus! {

/// The rotation about the x axis by `r` radians.
pub open spec fn spec_mat_x(r: u32) -> Mat3 {
    Mat3 {
        r0: Vec3 { x: F_ONE, y: F_ZERO, z: F_ZERO },
        r1: Vec3 { x: F_ZERO, y: cos_of(r), z: neg_of(sin_of(r)) },
        r2: Vec3 { x: F_ZERO, y: sin_of(r), z: cos_of(r) },
    }
}

/// The rotation about the y axis by `r` radians.
pub open spec fn spec_mat_y(r: u32) -> Mat3 {
    Mat3 {
        r0: Vec3 { x: cos_of(r), y: F_ZERO, z: sin_of(r) },
        r1: Vec3 { x: F_ZERO, y: F_ONE, z: F_ZERO },
        r2: Vec3 { x: neg_of(sin_of(r)), y: F_ZERO, z: cos_of(r) },
    }
}

/// The rotation about the z axis by `r` radians.
pub open spec fn spec_mat_z(r: u32) -> Mat3 {
    Mat3 {
        r0: Vec3 { x: cos_of(r), y: neg_of(sin_of(r)), z: F_ZERO },
        r1: Vec3 { x: sin_of(r), y: cos_of(r), z: F_ZERO },
        r2: Vec3 { x: F_ZERO, y: F_ZERO, z: F_ONE },
    }
}

/// The full rotation: `(Ry * Rx) * Rz` over the three Euler angles,
/// given in radians as `(x, y, z)` components.
pub open spec fn spec_rotation_matrix(rotation: Vec3) -> Mat3 {
    spec_row_mat3_mul(
        spec_row_mat3_mul(spec_mat_y(rotation.y), spec_mat_x(rotation.x)),
        spec_mat_z(rotation.z),
    )
}

/// Builds the rotation matrix for the given Euler angles in radians.
/// Deterministic: the same angles always yield the same matrix.
pub fn get_rotation_matrix(rotation: Vec3) -> (m: Mat3)
    ensures
        m == spec_rotation_matrix(rotation),
{
    let mat_x = Mat3 {
        r0: Vec3 { x: F_ONE, y: F_ZERO, z: F_ZERO },
        r1: Vec3 { x: F_ZERO, y: cos_bits(rotation.x), z: neg_bits(sin_bits(rotation.x)) },
        r2: Vec3 { x: F_ZERO, y: sin_bits(rotation.x), z: cos_bits(rotation.x) },
    };

    let mat_y = Mat3 {
        r0: Vec3 { x: cos_bits(rotation.y), y: F_ZERO, z: sin_bits(rotation.y) },
        r1: Vec3 { x: F_ZERO, y: F_ONE, z: F_ZERO },
        r2: Vec3 { x: neg_bits(sin_bits(rotation.y)), y: F_ZERO, z: cos_bits(rotation.y) },
    };

    let mat_z = Mat3 {
        r0: Vec3 { x: cos_bits(rotation.z), y: neg_bits(sin_bits(rotation.z)), z: F_ZERO },
        r1: Vec3 { x: sin_bits(rotation.z), y: cos_bits(rotation.z), z: F_ZERO },
        r2: Vec3 { x: F_ZERO, y: F_ZERO, z: F_ONE },
    };

    row_mat3_mul(&row_mat3_mul(&mat_y, &mat_x), &mat_z)
}

} // verus!
