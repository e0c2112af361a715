use whitted::castray::{
    calculate_background_color, cast_ray, cast_shadow, light_contribution, offset_origin, reflect,
    refract,
};
use whitted::color::Color;
use whitted::light::Light;
use whitted::material::Material;
use whitted::object::{Cube, Primitive};
use whitted::ray_intersect::{Intersect, RayIntersect};
use whitted::vec3::Vec3;

const S: i64 = 65536;

fn plain(color: Color) -> Material {
    Material::new(color, 10, (S, 0), 0, 0, S)
}

fn mirror() -> Material {
    Material::new(Color::new(255, 255, 255), 10, (0, 0), S, 0, S)
}

#[test]
fn reflect_at_normal_incidence_reverses_the_ray() {
    let d = Vec3::new(0, 0, -S);
    let n = Vec3::new(0, 0, S);
    assert_eq!(reflect(&d, &n), Vec3::new(0, 0, S));
}

#[test]
fn reflect_at_grazing_angles_mirrors_one_component() {
    let d = Vec3::new(S, -S, 0);
    let n = Vec3::new(0, S, 0);
    assert_eq!(reflect(&d, &n), Vec3::new(S, S, 0));
}

#[test]
fn refract_straight_through_at_matched_index() {
    // refraction index 1.0: the direction passes through unchanged
    let d = Vec3::new(0, 0, -S);
    let n = Vec3::new(0, 0, S);
    let r = refract(&d, &n, S);
    assert_eq!(r, Vec3::new(0, 0, -S));
}

#[test]
fn refract_bends_an_entering_ray() {
    // entering a medium of index 2: eta = 1/2 and the discriminant stays
    // positive, so the ray refracts; its tangential component is scaled by
    // eta with no square root involved
    let d = Vec3::new(63000, 0, -18000);
    let n = Vec3::new(0, 0, S);
    let r = refract(&d, &n, 2 * S);
    assert_eq!(r.x, 31500);
    assert!(r.z < 0, "refracted ray should continue into the medium: {:?}", r);
}

#[test]
fn refract_falls_back_to_reflection_past_the_critical_angle() {
    // leaving a dense medium (index 3) at a grazing angle: eta = 3 makes
    // the discriminant negative, total internal reflection
    let d = Vec3::new(63000, 0, 18000);
    let n = Vec3::new(0, 0, S);
    let r = refract(&d, &n, 3 * S);
    assert_eq!(r, reflect(&d, &n.neg()));
}

#[test]
fn offset_origin_biases_to_the_leaving_side() {
    let inter = Intersect::new(
        Vec3::new(0, S, 0),
        Vec3::new(0, S, 0),
        S,
        plain(Color::new(1, 1, 1)),
        (0, 0),
    );
    let up = Vec3::new(0, S, 0);
    let down = Vec3::new(0, -S, 0);
    assert_eq!(offset_origin(&inter, &up), Vec3::new(0, S + 7, 0));
    assert_eq!(offset_origin(&inter, &down), Vec3::new(0, S - 7, 0));
}

#[test]
fn empty_intersect_is_the_sentinel() {
    let e = Intersect::empty();
    assert!(!e.is_intersecting);
    assert_eq!(e.distance, 0);
    assert_eq!(e.point, Vec3::zero());
    assert!(!e.material.has_texture);
}

#[test]
fn background_scales_sky_with_intensity() {
    let half = Light::new(Vec3::zero(), Color::new(255, 255, 255), S / 2);
    let c = calculate_background_color(&half);
    assert_eq!(c, Color::new(67, 103, 125));
    let full = Light::new(Vec3::zero(), Color::new(255, 255, 255), S);
    assert_eq!(calculate_background_color(&full), Color::new(135, 206, 250));
    // over-bright daylight saturates
    let bright = Light::new(Vec3::zero(), Color::new(255, 255, 255), 2 * S);
    assert_eq!(calculate_background_color(&bright), Color::new(255, 255, 255));
}

#[test]
fn missing_everything_returns_exactly_the_background() {
    let daylight = Light::new(Vec3::new(4 * S, 4 * S, 7 * S), Color::new(229, 156, 19), S / 2);
    let objects: Vec<Primitive> = Vec::new();
    let textures = Vec::new();
    let c = cast_ray(&Vec3::zero(), &Vec3::new(0, 0, -S), &objects, &daylight, &[], &textures, 0);
    assert_eq!(c, calculate_background_color(&daylight));

    // the background is a function of the intensity alone
    let moved = Light::new(Vec3::new(-9 * S, 0, 0), Color::new(1, 2, 3), S / 2);
    let c2 = cast_ray(&Vec3::zero(), &Vec3::new(0, S, 0), &objects, &moved, &[], &textures, 0);
    assert_eq!(c2, c);
}

#[test]
fn depth_exhaustion_returns_the_terminal_gray() {
    let daylight = Light::new(Vec3::zero(), Color::new(255, 255, 255), S);
    let objects: Vec<Primitive> = Vec::new();
    let textures = Vec::new();
    let c = cast_ray(&Vec3::zero(), &Vec3::new(0, 0, -S), &objects, &daylight, &[], &textures, 4);
    assert_eq!(c, Color::new(179, 179, 179));
}

#[test]
fn occluded_light_contributes_nothing() {
    // a ground slab, shaded from above, with a blocker between it and the light
    let ground = Cube {
        min: Vec3::new(-10 * S, -2 * S, -10 * S),
        max: Vec3::new(10 * S, -S, 10 * S),
        material: plain(Color::new(200, 200, 200)),
    };
    let blocker = Cube {
        min: Vec3::new(-S, 0, -S),
        max: Vec3::new(S, S, S),
        material: plain(Color::new(50, 50, 50)),
    };
    let objects = vec![Primitive::Cube(ground), Primitive::Cube(blocker)];
    let textures = Vec::new();
    let origin = Vec3::new(0, 5 * S, 0);
    let dir = Vec3::new(0, -S, 0);
    let hit = ground.ray_intersect(&origin, &dir);
    assert!(hit.is_intersecting);
    assert_eq!(hit.point, Vec3::new(0, -S, 0));
    let light = Light::new(Vec3::new(0, 5 * S, 0), Color::new(255, 255, 255), S);

    // the blocker sits on the segment: full shadow
    assert_eq!(cast_shadow(&hit, &light, &objects), S);
    let c = light_contribution(&hit, &light, &objects, &textures, &origin);
    assert_eq!(c, Color::new(0, 0, 0));

    // without the blocker the same light does contribute
    let open_scene = vec![Primitive::Cube(ground)];
    assert_eq!(cast_shadow(&hit, &light, &open_scene), 0);
    let lit = light_contribution(&hit, &light, &open_scene, &textures, &origin);
    assert!(lit.r > 0);
}

#[test]
fn transparent_cube_passes_the_ray_through() {
    // a fully transparent box at matched refraction index: the ray enters,
    // exits through the far face from inside, and shades to whatever lies
    // beyond - here the background
    let glass = Material::new(Color::new(255, 255, 255), 10, (0, 0), 0, S, S);
    let slab = Cube { min: Vec3::new(0, 0, 0), max: Vec3::new(S, S, S), material: glass };
    let objects = vec![Primitive::Cube(slab)];
    let textures = Vec::new();
    let daylight = Light::new(Vec3::new(0, 20 * S, 10 * S), Color::new(255, 255, 255), S / 2);
    let origin = Vec3::new(S / 2, S / 2, 3 * S);
    let dir = Vec3::new(0, 0, -S);
    let c = cast_ray(&origin, &dir, &objects, &daylight, &[], &textures, 0);
    assert_eq!(c, calculate_background_color(&daylight));
}

#[test]
fn equal_distance_tie_goes_to_the_earlier_primitive() {
    // two coincident cubes: every ray meets both at exactly the same
    // distance, and the first in scene order must win
    let geometry = |color: Color| Cube {
        min: Vec3::new(0, 0, 0),
        max: Vec3::new(S, S, S),
        material: plain(color),
    };
    let red_first = vec![
        Primitive::Cube(geometry(Color::new(255, 0, 0))),
        Primitive::Cube(geometry(Color::new(0, 255, 0))),
    ];
    let green_first = vec![
        Primitive::Cube(geometry(Color::new(0, 255, 0))),
        Primitive::Cube(geometry(Color::new(255, 0, 0))),
    ];
    let textures = Vec::new();
    let daylight = Light::new(Vec3::new(S, 5 * S, 5 * S), Color::new(255, 255, 255), S);
    let origin = Vec3::new(S / 2, S / 2, 3 * S);
    let dir = Vec3::new(0, 0, -S);
    let a = cast_ray(&origin, &dir, &red_first, &daylight, &[], &textures, 0);
    let b = cast_ray(&origin, &dir, &green_first, &daylight, &[], &textures, 0);
    assert!(a.r > a.g, "first cube's red material should win: {:?}", (a.r, a.g, a.b));
    assert!(b.g > b.r, "first cube's green material should win: {:?}", (b.r, b.g, b.b));
}

#[test]
fn perfect_mirror_facing_the_background_returns_the_background() {
    let slab = Cube { min: Vec3::new(0, 0, 0), max: Vec3::new(S, S, S), material: mirror() };
    let objects = vec![Primitive::Cube(slab)];
    let textures = Vec::new();
    let daylight = Light::new(Vec3::new(0, 20 * S, 10 * S), Color::new(255, 255, 255), S / 2);
    let origin = Vec3::new(S / 2, S / 2, 3 * S);
    let dir = Vec3::new(0, 0, -S);
    let c = cast_ray(&origin, &dir, &objects, &daylight, &[], &textures, 0);
    // reflectivity one, transparency zero: the local term is annulled and
    // the reflected ray, which misses everything, shades to the background
    assert_eq!(c, calculate_background_color(&daylight));
}

#[test]
fn mirrors_facing_each_other_converge_to_the_terminal_gray() {
    let a = Cube { min: Vec3::new(0, 0, 0), max: Vec3::new(S, S, S), material: mirror() };
    let b = Cube { min: Vec3::new(0, 0, 5 * S), max: Vec3::new(S, S, 6 * S), material: mirror() };
    let objects = vec![Primitive::Cube(a), Primitive::Cube(b)];
    let textures = Vec::new();
    let daylight = Light::new(Vec3::new(0, 20 * S, 10 * S), Color::new(255, 255, 255), S);
    let origin = Vec3::new(S / 2, S / 2, 3 * S);
    let dir = Vec3::new(0, 0, -S);
    let c = cast_ray(&origin, &dir, &objects, &daylight, &[], &textures, 0);
    // the ray bounces between the mirrors until the depth bound fires
    assert_eq!(c, Color::new(179, 179, 179));
}
