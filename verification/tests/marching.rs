//! The marching loop end to end: convergence onto a sphere, escape to
//! a miss, the empty scene, and the two-primitive scene with a camera
//! at the origin.

use terminal_raymarcher::color::{Color, Rgb};
use terminal_raymarcher::distance_field::SDF;
use terminal_raymarcher::raymarching::{generate_ray, Ray};
use terminal_raymarcher::scene::Scene;
use terminal_raymarcher::scheduler::render_cell;
use terminal_raymarcher::vec3::Vec3;

fn b(x: f32) -> u32 {
    x.to_bits()
}

fn v(x: f32, y: f32, z: f32) -> Vec3 {
    Vec3 { x: b(x), y: b(y), z: b(z) }
}

const RED: Rgb = Rgb { r: 255, g: 0, b: 0 };
const WHITE: Rgb = Rgb { r: 255, g: 255, b: 255 };

fn is_red_shade(c: Color) -> bool {
    match c {
        Color::Rgb { r: _, g, b } => g == 0 && b == 0,
        _ => false,
    }
}

fn is_grey_shade(c: Color) -> bool {
    match c {
        Color::Rgb { r, g, b } => r == g && g == b,
        _ => false,
    }
}

#[test]
fn ray_at_sphere_center_hits() {
    let mut scene = Scene::new();
    scene.push_sdf(SDF::new_sphere(v(0.0, 0.0, 5.0), b(1.0), RED));
    let ray = Ray::new(v(0.0, 0.0, 0.0), v(0.0, 0.0, 1.0));
    let (glyph, colour) = scene.march(ray);
    assert_ne!((glyph, colour), (' ', Color::Red), "expected a hit");
    assert!(is_red_shade(colour));
}

#[test]
fn ray_away_from_everything_misses() {
    let mut scene = Scene::new();
    scene.push_sdf(SDF::new_sphere(v(0.0, 0.0, 5.0), b(1.0), RED));
    let ray = Ray::new(v(0.0, 0.0, 0.0), v(0.0, -1.0, 0.0));
    assert_eq!(scene.march(ray), (' ', Color::Red));
}

#[test]
fn empty_scene_misses() {
    let scene = Scene::new();
    let ray = Ray::new(v(0.0, 0.0, 0.0), v(0.0, 0.0, 1.0));
    assert_eq!(scene.march(ray), (' ', Color::Red));
}

#[test]
fn tie_on_exact_distance_goes_to_the_first_primitive() {
    // two identical spheres: the scan keeps the first under a strict
    // comparison, so the hit shades the white one pushed first
    let mut scene = Scene::new();
    scene.push_sdf(SDF::new_sphere(v(0.0, 0.0, 5.0), b(1.0), WHITE));
    scene.push_sdf(SDF::new_sphere(v(0.0, 0.0, 5.0), b(1.0), RED));
    let ray = Ray::new(v(0.0, 0.0, 0.0), v(0.0, 0.0, 1.0));
    let (_, colour) = scene.march(ray);
    assert!(is_grey_shade(colour), "first-inserted primitive must win the tie");
}

#[test]
fn plane_and_sphere_scene_shows_both() {
    // a white plane below, a red sphere ahead and to the right; the
    // camera at the origin with no yaw
    let mut scene = Scene::new();
    scene.push_sdf(SDF::new_plane(b(-1.0), WHITE));
    scene.push_sdf(SDF::new_sphere(v(2.0, 0.0, 5.0), b(1.0), RED));

    let term_size: (u16, u16) = (80, 24);
    let mut sphere_cells = 0usize;
    let mut plane_cells = 0usize;
    for px in 0..term_size.0 {
        for py in 0..term_size.1 {
            let ray = scene.generate_ray(term_size, px, py);
            let (glyph, colour) = scene.march(ray);
            if (glyph, colour) == (' ', Color::Red) {
                continue;
            }
            if is_red_shade(colour) {
                sphere_cells += 1;
            } else if is_grey_shade(colour) {
                plane_cells += 1;
            }
        }
    }
    assert!(sphere_cells > 0, "no cell hit the sphere");
    assert!(plane_cells > 0, "no cell hit the plane");
}

#[test]
fn step_budget_exhaustion_is_a_miss() {
    // straight ahead from the origin: the plane below stays exactly 1.0
    // away at every step and the sphere never comes closer than 1.0, so
    // the budget of sixty-four steps runs out without convergence — a
    // miss, not a shaded cell
    let mut scene = Scene::new();
    scene.push_sdf(SDF::new_plane(b(-1.0), WHITE));
    scene.push_sdf(SDF::new_sphere(v(2.0, 0.0, 5.0), b(1.0), RED));
    let ray = Ray::new(v(0.0, 0.0, 0.0), v(0.0, 0.0, 1.0));
    assert_eq!(scene.march(ray), (' ', Color::Red));
}

#[test]
fn far_primitive_still_reports_an_index() {
    // a non-empty scene always yields an index, however far everything
    // is; only the empty scene reports none
    let mut scene = Scene::new();
    scene.push_sdf(SDF::new_sphere(v(10000.0, 0.0, 0.0), b(1.0), RED));
    let (d, idx) = scene.get_distance(v(0.0, 0.0, 0.0));
    assert_eq!(idx, 0);
    assert_eq!(d, b(9999.0));
}

#[test]
fn render_cell_is_generate_then_march() {
    let mut scene = Scene::new();
    scene.push_sdf(SDF::new_plane(b(-1.0), WHITE));
    scene.push_sdf(SDF::new_sphere(v(2.0, 0.0, 5.0), b(1.0), RED));
    let term_size: (u16, u16) = (80, 24);
    let yaw = b(10.0);
    for &(px, py) in &[(0u16, 0u16), (40, 12), (59, 20), (79, 23)] {
        let ray = generate_ray(yaw, term_size, px, py);
        assert_eq!(render_cell(&scene, yaw, term_size, px, py), scene.march(ray));
    }
}

#[test]
fn empty_scene_nearest_has_no_index() {
    let scene = Scene::new();
    assert_eq!(scene.get_distance(v(1.0, 2.0, 3.0)), (b(4096.0), -1));
}

#[test]
fn center_pixel_ray_points_straight_ahead() {
    // the exact projection of the screen-center cell: both normalized
    // device coordinates are zero, so the direction is (0, 0, 1) with
    // the mirrored x carrying a negative zero
    let mut scene = Scene::new();
    scene.push_sdf(SDF::new_plane(b(-1.0), WHITE));
    let ray = scene.generate_ray((80, 24), 40, 12);
    assert_eq!(ray.direction.x, b(-0.0));
    assert_eq!(ray.direction.y, b(0.0));
    assert_eq!(ray.direction.z, b(1.0));
    assert_eq!(ray.position, v(0.0, 0.0, 0.0));
    assert_eq!(ray.origin, v(0.0, 0.0, 0.0));
}

#[test]
fn ray_step_advances_by_direction_times_distance() {
    let mut ray = Ray::new(v(0.0, 0.0, 0.0), v(0.0, 0.6, 0.8));
    ray.step(b(2.5));
    assert_eq!(ray.position, v(0.0, 0.6 * 2.5, 0.8 * 2.5));
    ray.step(b(1.0));
    assert_eq!(ray.position, v(0.0, 0.6 * 2.5 + 0.6 * 1.0, 0.8 * 2.5 + 0.8 * 1.0));
    assert_eq!(ray.direction, v(0.0, 0.6, 0.8));
}

#[test]
fn marching_is_deterministic() {
    let mut scene = Scene::new();
    scene.push_sdf(SDF::new_plane(b(-1.0), WHITE));
    scene.push_sdf(SDF::new_sphere(v(2.0, 0.0, 5.0), b(1.0), RED));
    let ray = scene.generate_ray((80, 24), 59, 12);
    assert_eq!(scene.march(ray), scene.march(ray));
}
