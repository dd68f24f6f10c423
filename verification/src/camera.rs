//! The camera: an eye position, a yaw in degrees that turns every ray
//! about the vertical axis, and a roll that is carried but not applied
//! by ray generation.

use vstd::prelude::*;
use crate::fbits::{add_of, add_bits, sub_of, sub_bits, F_TWO};
use crate::vec3::Vec3;

verus! {

#[derive(Clone, Copy, Debug, PartialEq, Eq, Structural)]
pub struct Camera {
    pub eye: Vec3,
    pub yaw: u32,
    pub roll: u32,
}

impl Camera {
    pub fn new(eye: Vec3, yaw: u32, roll: u32) -> (c: Camera)
        ensures
            c == (Camera { eye, yaw, roll }),
    {
        Camera { eye, yaw, roll }
    }
}

/// The yaw after one key press: two degrees right on `d`, two degrees
/// left on `a`, unchanged on anything else.
pub open spec fn spec_yaw_after_key(yaw: u32, key: char) -> u32 {
    if key == 'd' {
        add_of(yaw, F_TWO)
    } else if key == 'a' {
        sub_of(yaw, F_TWO)
    } else {
        yaw
    }
}

/// Applies one key press to the camera. Only the yaw changes.
pub fn handle_input(camera: &mut Camera, key: char)
    ensures
        final(camera).yaw == spec_yaw_after_key(old(camera).yaw, key),
        final(camera).eye == old(camera).eye,
        final(camera).roll == old(camera).roll,
{
    if key == 'd' {
        camera.yaw = add_bits(camera.yaw, F_TWO);
    }
    if key == 'a' {
        camera.yaw = sub_bits(camera.yaw, F_TWO);
    }
}

} // verus!
