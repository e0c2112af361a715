use whitted::camera::Camera;
use whitted::color::Color;
use whitted::fixed::{FX_HALF_PI, FX_TWO_PI};
use whitted::framebuffer::Framebuffer;
use whitted::vec3::Vec3;

const S: i64 = 65536;
const FOV: i64 = 68629;  // pi / 3

fn looking_down_z() -> Camera {
    // eye lands (approximately) at the origin, looking toward -z
    Camera::new(Vec3::new(0, 0, -5 * S), Vec3::new(0, S, 0), 5 * S, FX_HALF_PI, 0, FOV)
}

fn norm2(v: &Vec3) -> i128 {
    (v.x as i128) * (v.x as i128) + (v.y as i128) * (v.y as i128) + (v.z as i128) * (v.z as i128)
}

#[test]
fn camera_new_derives_the_eye_on_the_orbit_sphere() {
    let cam = looking_down_z();
    assert_eq!(cam.radius, 5 * S);
    assert_eq!(cam.pitch, 0);
    // at yaw pi/2 and pitch 0 the spherical offset is (0, 0, ~radius)
    assert_eq!(cam.eye.x, 0);
    assert_eq!(cam.eye.y, 0);
    assert!((cam.eye.z - 0).abs() < S / 64);
}

#[test]
fn generate_ray_at_the_center_is_the_normalized_forward() {
    let cam = looking_down_z();
    let forward = cam.center.sub(&cam.eye).normalize();
    assert_eq!(cam.generate_ray(0, 0), forward);
    // and that forward points down -z
    assert!(forward.z < -S + 64);
}

#[test]
fn generate_ray_is_unit_length_across_the_screen() {
    let cam = looking_down_z();
    for &u in &[-S, -S / 2, 0, S / 2, S] {
        for &v in &[-S, -S / 2, 0, S / 2, S] {
            let d = cam.generate_ray(u, v);
            let n2 = norm2(&d);
            // the bounds proved by lemma_generate_ray_unit
            assert!(n2 >= 4294574078, "norm2 {} at ({}, {})", n2, u, v);
            assert!(n2 <= 4295098368, "norm2 {} at ({}, {})", n2, u, v);
        }
    }
}

#[test]
fn basis_change_keeps_unit_length() {
    let cam = looking_down_z();
    let d = cam.basis_change(&Vec3::new(S / 4, -S / 3, -S));
    let n2 = norm2(&d);
    assert!(n2 >= 4294574078 && n2 <= 4295098368);
}

#[test]
fn orbit_wraps_yaw_and_clamps_pitch() {
    let mut cam = looking_down_z();
    cam.orbit(FX_HALF_PI, 0);
    // pi/2 + pi/2 lands just past pi and wraps to the negative side
    assert_eq!(cam.yaw, FX_HALF_PI + FX_HALF_PI - FX_TWO_PI);
    assert_eq!(cam.pitch, 0);
    assert_eq!(cam.radius, 5 * S);
    assert_eq!(cam.center, Vec3::new(0, 0, -5 * S));

    cam.orbit(0, 10 * S);
    assert_eq!(cam.pitch, 96390);
    cam.orbit(0, -20 * S);
    assert_eq!(cam.pitch, -96390);
}

#[test]
fn orbit_keeps_the_eye_at_constant_radius() {
    let mut cam = looking_down_z();
    for _ in 0..5 {
        cam.orbit(3000, -2000);
        let r = cam.eye.sub(&cam.center).magnitude();
        // the stored radius is exact; the derived eye sits on the sphere up
        // to the trigonometric approximation
        assert!((r - cam.radius).abs() < cam.radius / 256, "radius drifted: {}", r);
    }
}

#[test]
fn zoom_moves_along_the_view_direction_and_stops_at_the_target() {
    let mut cam = looking_down_z();
    cam.zoom(S);
    assert_eq!(cam.radius, 4 * S);
    cam.zoom(-S);
    assert_eq!(cam.radius, 5 * S);
    cam.zoom(100 * S);
    assert_eq!(cam.radius, 1);
}

#[test]
fn framebuffer_starts_zeroed_with_gray_background() {
    let fb = Framebuffer::new(4, 3);
    assert_eq!(fb.width, 4);
    assert_eq!(fb.height, 3);
    assert_eq!(fb.buffer.len(), 12);
    assert!(fb.buffer.iter().all(|&p| p == 0));
}

#[test]
fn clear_fills_with_the_packed_background() {
    let mut fb = Framebuffer::new(4, 3);
    fb.clear();
    let gray = fb.color_to_u32(&Color::new(179, 179, 179));
    assert_eq!(gray, 0xFFB3B3B3);
    assert!(fb.buffer.iter().all(|&p| p == gray));

    fb.set_background_color(Color::new(1, 2, 3));
    fb.clear();
    assert!(fb.buffer.iter().all(|&p| p == 0xFF010203));
}
