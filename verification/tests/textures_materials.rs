use whitted::color::Color;
use whitted::material::{Material, TextureType};
use whitted::texture::Texture;

const S: i64 = 65536;

fn checker2x2() -> Texture {
    // row 0: red, green; row 1: blue, white
    let pixels = vec![
        Color::new(255, 0, 0),
        Color::new(0, 255, 0),
        Color::new(0, 0, 255),
        Color::new(255, 255, 255),
    ];
    Texture::new(2, 2, pixels)
}

#[test]
fn get_color_indexes_row_major() {
    let t = checker2x2();
    assert_eq!(t.get_color(0, 0), Color::new(255, 0, 0));
    assert_eq!(t.get_color(1, 0), Color::new(0, 255, 0));
    assert_eq!(t.get_color(0, 1), Color::new(0, 0, 255));
    assert_eq!(t.get_color(1, 1), Color::new(255, 255, 255));
}

#[test]
fn get_color_out_of_bounds_is_magenta() {
    let t = checker2x2();
    assert_eq!(t.get_color(2, 0), Color::new(255, 0, 255));
    assert_eq!(t.get_color(0, 2), Color::new(255, 0, 255));
}

#[test]
fn sample_rounds_and_flips_v() {
    let t = checker2x2();
    // (u, v) = (0, 1): top-left
    assert_eq!(t.sample(0, S), Color::new(255, 0, 0));
    // (u, v) = (1, 1): top-right
    assert_eq!(t.sample(S, S), Color::new(0, 255, 0));
    // (u, v) = (0, 0): bottom-left (v flipped)
    assert_eq!(t.sample(0, 0), Color::new(0, 0, 255));
    // (u, v) = (1, 0): bottom-right
    assert_eq!(t.sample(S, 0), Color::new(255, 255, 255));
    // u = 0.5 rounds up to column 1 at the top row
    assert_eq!(t.sample(S / 2, S), Color::new(0, 255, 0));
}

#[test]
fn sample_out_of_range_is_magenta() {
    let t = checker2x2();
    assert_eq!(t.sample(-1, 0), Color::new(255, 0, 255));
    assert_eq!(t.sample(0, S + 1), Color::new(255, 0, 255));
}

#[test]
fn black_texture_is_one_black_pixel() {
    let t = Texture::black();
    assert_eq!(t.width, 1);
    assert_eq!(t.height, 1);
    assert_eq!(t.get_color(0, 0), Color::new(0, 0, 0));
    assert_eq!(t.sample(S / 2, S / 2), Color::new(0, 0, 0));
}

#[test]
fn material_new_has_no_texture() {
    let m = Material::new(Color::new(10, 20, 30), 50, (S / 2, S / 4), 100, 200, 300);
    assert!(!m.has_texture);
    assert_eq!(m.texture_index, 0);
    assert_eq!(m.diffuse, Color::new(10, 20, 30));
    assert_eq!(m.shininess, 50);
    assert_eq!(m.albedo, (S / 2, S / 4));
    assert_eq!(m.reflectivity, 100);
    assert_eq!(m.transparency, 200);
    assert_eq!(m.refraction_index, 300);
}

#[test]
fn material_texture_slots_are_stable() {
    let cases = [
        (TextureType::Ice, 0),
        (TextureType::Birch, 1),
        (TextureType::Flower, 2),
        (TextureType::Ffront, 3),
        (TextureType::Snow_top, 4),
        (TextureType::Fside, 5),
        (TextureType::Ftop, 6),
    ];
    for (tt, want) in cases {
        let m = Material::new_with_texture(1, (S, 0), 0, 0, S, tt);
        assert!(m.has_texture);
        assert_eq!(m.texture_index, want);
        assert_eq!(m.diffuse, Color::new(0, 0, 0));
    }
}

#[test]
fn diffuse_color_prefers_the_bound_texture() {
    let table = vec![checker2x2()];
    let flat = Material::new(Color::new(9, 9, 9), 1, (S, 0), 0, 0, S);
    assert_eq!(flat.get_diffuse_color(&table, 0, S), Color::new(9, 9, 9));
    let textured = Material::new_with_texture(1, (S, 0), 0, 0, S, TextureType::Ice);
    assert_eq!(textured.get_diffuse_color(&table, 0, S), Color::new(255, 0, 0));
    assert_eq!(textured.get_diffuse_color(&table, S, 0), Color::new(255, 255, 255));
}

#[test]
fn material_black_is_all_zero() {
    let m = Material::black();
    assert!(!m.has_texture);
    assert_eq!(m.diffuse, Color::new(0, 0, 0));
    assert_eq!(m.albedo, (0, 0));
    assert_eq!(m.reflectivity, 0);
    assert_eq!(m.transparency, 0);
}
