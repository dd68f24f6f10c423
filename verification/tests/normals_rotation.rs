//! The normal estimate and the rotation builder: a sphere's estimated
//! normal points away from its center, rebuilding a rotation from the
//! same angles is bit-identical, and the zero rotation is the identity.

use terminal_raymarcher::color::Rgb;
use terminal_raymarcher::distance_field::SDF;
use terminal_raymarcher::rotation::get_rotation_matrix;
use terminal_raymarcher::scene::Scene;
use terminal_raymarcher::vec3::{Vec3, Mat3};

fn b(x: f32) -> u32 {
    x.to_bits()
}

fn f(u: u32) -> f32 {
    f32::from_bits(u)
}

fn v(x: f32, y: f32, z: f32) -> Vec3 {
    Vec3 { x: b(x), y: b(y), z: b(z) }
}

const RED: Rgb = Rgb { r: 255, g: 0, b: 0 };

#[test]
fn sphere_normal_points_outward() {
    let mut scene = Scene::new();
    let center = (1.0f32, -0.5f32, 4.0f32);
    scene.push_sdf(SDF::new_sphere(v(center.0, center.1, center.2), b(1.0), RED));

    // surface points in a few directions from the center
    let dirs = [(1.0f32, 0.0f32, 0.0f32), (0.0, 1.0, 0.0), (0.0, 0.0, -1.0), (0.6, 0.8, 0.0)];
    for d in dirs {
        let p = (center.0 + d.0, center.1 + d.1, center.2 + d.2);
        let n = scene.get_normal(v(p.0, p.1, p.2));
        let n = [f(n.x), f(n.y), f(n.z)];
        let dot = n[0] * d.0 + n[1] * d.1 + n[2] * d.2;
        assert!(dot > 0.9, "normal {:?} not aligned with {:?} (dot {})", n, d, dot);
    }
}

#[test]
fn update_rotation_twice_is_bit_identical() {
    let angles = v(33.5, -12.25, 101.0);
    let mut a = SDF::new_torus(v(0.0, 0.0, 5.0), (b(1.0), b(0.5)), RED, v(0.0, 0.0, 0.0));
    let mut c = SDF::new_torus(v(0.0, 0.0, 5.0), (b(1.0), b(0.5)), RED, v(0.0, 0.0, 0.0));
    a.update_rotation(angles);
    c.update_rotation(angles);
    c.update_rotation(angles);
    assert_eq!(a.rotation, c.rotation);
    assert_eq!(a, c);
}

#[test]
fn update_rotation_without_a_rotation_slot_is_a_no_op() {
    let mut s = SDF::new_sphere(v(0.0, 0.0, 0.0), b(1.0), RED);
    let before = s;
    s.update_rotation(v(90.0, 0.0, 0.0));
    assert_eq!(s, before);
}

#[test]
fn scene_update_rotation_reaches_the_primitive() {
    let angles = v(15.0, 30.0, 45.0);
    let torus = SDF::new_torus(v(-2.0, 0.0, 5.0), (b(1.0), b(0.5)), RED, v(0.0, 0.0, 0.0));
    let mut scene = Scene::new();
    let idx = scene.push_sdf(torus);
    assert_eq!(idx, 0);
    scene.update_rotation(idx, angles);

    let mut alone = torus;
    alone.update_rotation(angles);
    assert_eq!(scene.distance_fields[idx], alone);
}

#[test]
fn zero_angles_build_the_identity() {
    let m = get_rotation_matrix(v(0.0, 0.0, 0.0));
    let id = Mat3 { r0: v(1.0, 0.0, 0.0), r1: v(0.0, 1.0, 0.0), r2: v(0.0, 0.0, 1.0) };
    assert_eq!(m, id);
}

#[test]
fn rotation_entries_match_libm() {
    // one axis at a time: the x rotation's middle row is (0, cos, -sin)
    let a = 0.7f32;
    let m = get_rotation_matrix(v(a, 0.0, 0.0));
    assert_eq!(f(m.r1.y), libm::cosf(a));
    assert_eq!(f(m.r1.z), -libm::sinf(a));
    assert_eq!(f(m.r2.y), libm::sinf(a));
}
