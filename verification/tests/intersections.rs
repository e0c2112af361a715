use whitted::color::Color;
use whitted::material::Material;
use whitted::object::{Cube, Primitive, Sphere};
use whitted::ray_intersect::RayIntersect;
use whitted::vec3::Vec3;

const S: i64 = 65536;

fn plain(color: Color) -> Material {
    Material::new(color, 10, (S, 0), 0, 0, S)
}

fn unit_cube() -> Cube {
    Cube { min: Vec3::new(0, 0, 0), max: Vec3::new(S, S, S), material: plain(Color::new(1, 2, 3)) }
}

#[test]
fn cube_hit_from_the_front() {
    let c = unit_cube();
    let origin = Vec3::new(S / 2, S / 2, 5 * S);
    let dir = Vec3::new(0, 0, -S);
    let hit = c.ray_intersect(&origin, &dir);
    assert!(hit.is_intersecting);
    assert_eq!(hit.distance, 4 * S);
    assert_eq!(hit.point, Vec3::new(S / 2, S / 2, S));
    assert_eq!(hit.normal, Vec3::new(0, 0, S));
    assert_eq!(hit.uv, (S / 2, S / 2));
    assert_eq!(hit.material.diffuse, Color::new(1, 2, 3));
}

#[test]
fn cube_hit_point_lies_on_the_face_the_normal_names() {
    // the hit point has exactly one coordinate on a bound of the box, and
    // the normal is the axis-aligned unit vector of that face
    let c = unit_cube();
    let origin = Vec3::new(S / 4, S / 3, -7 * S);
    let dir = Vec3::new(0, 0, S);
    let hit = c.ray_intersect(&origin, &dir);
    assert!(hit.is_intersecting);
    assert_eq!(hit.normal, Vec3::new(0, 0, -S));
    assert_eq!(hit.point.z, c.min.z);
    assert!(hit.point.x > c.min.x && hit.point.x < c.max.x);
    assert!(hit.point.y > c.min.y && hit.point.y < c.max.y);
}

#[test]
fn cube_hit_from_inside_exits_through_the_far_face() {
    // an origin inside the box owes the exit hit: the entry parameter is
    // negative, so the nearest positive hit is the slab interval's exit
    let c = unit_cube();
    let origin = Vec3::new(S / 2, S / 2, S / 2);
    let dir = Vec3::new(0, 0, -S);
    let hit = c.ray_intersect(&origin, &dir);
    assert!(hit.is_intersecting);
    assert_eq!(hit.distance, S / 2);
    assert_eq!(hit.point, Vec3::new(S / 2, S / 2, 0));
    assert_eq!(hit.normal, Vec3::new(0, 0, -S));
}

#[test]
fn cube_uv_is_zero_at_the_min_corner() {
    // left face: u follows z and v follows y, both measured from the
    // box's minimum corner
    let c = unit_cube();
    let origin = Vec3::new(-5 * S, S / 4, S / 4);
    let dir = Vec3::new(S, 0, 0);
    let hit = c.ray_intersect(&origin, &dir);
    assert!(hit.is_intersecting);
    assert_eq!(hit.normal, Vec3::new(-S, 0, 0));
    assert_eq!(hit.point, Vec3::new(0, S / 4, S / 4));
    assert_eq!(hit.uv, (S / 4, S / 4));
}

#[test]
fn cube_miss_returns_the_empty_sentinel() {
    let c = unit_cube();
    let origin = Vec3::new(5 * S, 5 * S, 5 * S);
    let dir = Vec3::new(0, 0, -S);
    let hit = c.ray_intersect(&origin, &dir);
    assert!(!hit.is_intersecting);
    assert_eq!(hit.distance, 0);
}

#[test]
fn cube_behind_the_ray_is_no_hit() {
    let c = unit_cube();
    let origin = Vec3::new(S / 2, S / 2, -5 * S);
    let dir = Vec3::new(0, 0, -S);
    assert!(!c.ray_intersect(&origin, &dir).is_intersecting);
}

#[test]
fn cube_parallel_axis_outside_slab_is_no_hit() {
    let c = unit_cube();
    // the ray runs parallel to the x slabs, origin outside them
    let origin = Vec3::new(3 * S, S / 2, 5 * S);
    let dir = Vec3::new(0, 0, -S);
    assert!(!c.ray_intersect(&origin, &dir).is_intersecting);
}

#[test]
fn degenerate_zero_direction_does_not_crash() {
    let c = unit_cube();
    let origin = Vec3::new(S / 2, S / 2, 5 * S);
    let hit = c.ray_intersect(&origin, &Vec3::zero());
    assert!(!hit.is_intersecting);
    // even from inside, a zero-length direction constrains nothing and is
    // answered with the sentinel
    let inside = Vec3::new(S / 2, S / 2, S / 2);
    assert!(!c.ray_intersect(&inside, &Vec3::zero()).is_intersecting);
    let s = Sphere {
        center: Vec3::new(0, 0, -5 * S),
        radius: S,
        material: plain(Color::new(255, 0, 0)),
    };
    assert!(!s.ray_intersect(&s.center, &Vec3::zero()).is_intersecting);
}

#[test]
fn sphere_hit_straight_at_the_center() {
    let s = Sphere {
        center: Vec3::new(0, 0, -5 * S),
        radius: S,
        material: plain(Color::new(255, 0, 0)),
    };
    let origin = Vec3::zero();
    let dir = Vec3::new(0, 0, -S);
    let hit = s.ray_intersect(&origin, &dir);
    assert!(hit.is_intersecting);
    // distance == |origin - center| - radius, exactly here
    assert_eq!(hit.distance, 4 * S);
    assert_eq!(hit.point, Vec3::new(0, 0, -4 * S));
    // normal == unit vector from the center to the hit point
    assert_eq!(hit.normal, Vec3::new(0, 0, S));
    assert_eq!(hit.normal, hit.point.sub(&s.center).normalize());
}

#[test]
fn sphere_miss_and_behind() {
    let s = Sphere {
        center: Vec3::new(0, 0, -5 * S),
        radius: S,
        material: plain(Color::new(255, 0, 0)),
    };
    // aimed well wide
    let wide = s.ray_intersect(&Vec3::zero(), &Vec3::new(0, S, 0));
    assert!(!wide.is_intersecting);
    // sphere behind the ray
    let behind = s.ray_intersect(&Vec3::zero(), &Vec3::new(0, 0, S));
    assert!(!behind.is_intersecting);
}

#[test]
fn primitive_dispatches_to_both_shapes() {
    let cube = Primitive::Cube(unit_cube());
    let sphere = Primitive::Sphere(Sphere {
        center: Vec3::new(0, 0, -5 * S),
        radius: S,
        material: plain(Color::new(255, 0, 0)),
    });
    let origin = Vec3::new(S / 2, S / 2, 5 * S);
    let dir = Vec3::new(0, 0, -S);
    assert!(cube.ray_intersect(&origin, &dir).is_intersecting);
    assert!(sphere.ray_intersect(&Vec3::zero(), &dir).is_intersecting);
}
