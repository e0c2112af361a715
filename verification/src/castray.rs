//! The recursive shading engine.
//!
//! `cast_ray` finds the nearest positive hit, accumulates Phong-like diffuse
//! and specular terms per light with binary shadow tests, recurses for
//! reflection and refraction with a depth bound of 3, and composes the
//! terms weighted by reflectivity and transparency. A miss shades to the
//! background color, a function of the primary light's intensity alone;
//! depth exhaustion terminates in a fixed neutral gray.

use vstd::prelude::*;
use crate::color::{
    Color, spec_color_add, spec_color_scale, lemma_color_scale_one, lemma_color_scale_zero,
    lemma_color_add_black,
};
use crate::fixed::{fx_sub, fx_mul, fx_pow, imax, spec_fx_sub, spec_fx_mul, spec_fx_pow};
use crate::light::Light;
use crate::material::{material_wf, spec_get_diffuse_color};
use crate::object::{Primitive, material_of, lemma_intersect_material};
use crate::ray_intersect::{Intersect, RayIntersect, spec_empty_intersect};
use crate::texture::Texture;
use crate::vec3::{
    Vec3, spec_v_add, spec_v_sub, spec_v_scale, spec_v_neg, spec_v_dot, spec_normalize,
};

verus! {

/// Bias displacing a secondary ray's origin off the surface, about 1e-4.
pub const ORIGIN_BIAS: i64 = 7;
/// Bias displacing a reflected ray's origin along the normal, about 1e-3.
pub const REFLECT_BIAS: i64 = 66;
/// Ambient tint weight applied to a light's color in the diffuse term,
/// about 0.09.
pub const AMBIENT_WEIGHT: i64 = 5898;
/// Recursion bound: depths beyond this return the terminal gray.
pub const MAX_DEPTH: u32 = 3;

/// The secondary-ray origin: the hit point pushed off the surface along the
/// normal, on the side of the surface the new direction points to.
pub open spec fn spec_offset_origin(inter: Intersect, direction: Vec3) -> Vec3 {
    let offset = spec_v_scale(inter.normal, 7);
    if spec_v_dot(direction, inter.normal) < 0 {
        spec_v_sub(inter.point, offset)
    } else {
        spec_v_add(inter.point, offset)
    }
}

/// Mirror reflection: incident - 2 (incident . normal) normal.
pub open spec fn spec_reflect(incident: Vec3, normal: Vec3) -> Vec3 {
    spec_v_sub(
        incident,
        spec_v_scale(normal, spec_fx_mul(131072, spec_v_dot(incident, normal))),
    )
}

/// Snell refraction in vector form. The index ratio is 1/eta_t when the
/// ray enters the medium (incident against the normal) and eta_t when it
/// exits; total internal reflection falls back to the mirror formula.
pub open spec fn spec_refract(incident: Vec3, normal: Vec3, eta_t: int) -> Vec3 {
    let dotv = spec_v_dot(incident, normal);
    let cl = if dotv > 65536 {
        65536
    } else if dotv < -65536 {
        -65536
    } else {
        dotv
    };
    let cosi = -cl;
    let n_cosi = if cosi < 0 { -cosi } else { cosi };
    let eta = if cosi < 0 {
        eta_t
    } else {
        crate::fixed::spec_fx_div(65536, eta_t)
    };
    let n_normal = if cosi < 0 { spec_v_neg(normal) } else { normal };
    let k = spec_fx_sub(
        65536,
        spec_fx_mul(spec_fx_mul(eta, eta), spec_fx_sub(65536, spec_fx_mul(n_cosi, n_cosi))),
    );
    if k < 0 {
        spec_reflect(incident, n_normal)
    } else {
        spec_v_add(
            spec_v_scale(incident, eta),
            spec_v_scale(n_normal, spec_fx_sub(spec_fx_mul(eta, n_cosi), crate::fixed::spec_fx_sqrt(k))),
        )
    }
}

/// Whether this primitive blocks the segment of length `maxd` from `o`
/// along `d`.
pub open spec fn spec_occludes(p: Primitive, o: Vec3, d: Vec3, maxd: int) -> bool {
    let i = p.intersect_spec(o, d);
    i.is_intersecting && i.distance < maxd
}

/// Whether any primitive blocks the segment.
pub open spec fn spec_shadowed(objects: Seq<Primitive>, o: Vec3, d: Vec3, maxd: int) -> bool {
    exists|j: int| 0 <= j < objects.len() && spec_occludes(objects[j], o, d, maxd)
}

/// The binary shadow factor for a light at a shaded point: one fixed-point
/// unit when some primitive sits strictly between the biased point and the
/// light, zero otherwise.
pub open spec fn spec_cast_shadow(inter: Intersect, light: Light, objects: Seq<Primitive>) -> int {
    let light_dir = spec_normalize(spec_v_sub(light.position, inter.point));
    let shadow_origin = spec_offset_origin(inter, light_dir);
    let light_distance = crate::vec3::spec_magnitude(spec_v_sub(light.position, shadow_origin));
    if spec_shadowed(objects, shadow_origin, light_dir, light_distance) {
        65536
    } else {
        0
    }
}

/// One light's Phong-like contribution at a shaded point: an ambient-tinted
/// diffuse term weighted by the diffuse albedo and the incidence cosine,
/// plus a specular term weighted by the specular albedo and the alignment
/// of the view ray with the mirrored light ray, both scaled by the light's
/// intensity and annulled under shadow.
pub open spec fn spec_light_contribution(
    inter: Intersect,
    light: Light,
    objects: Seq<Primitive>,
    textures: Seq<Texture>,
    ray_origin: Vec3,
) -> Color {
    let light_dir = spec_normalize(spec_v_sub(light.position, inter.point));
    let view_dir = spec_normalize(spec_v_sub(ray_origin, inter.point));
    let reflect_dir = spec_normalize(spec_reflect(spec_v_neg(light_dir), inter.normal));
    let shadow_intensity = spec_cast_shadow(inter, light, objects);
    let light_intensity = spec_fx_mul(
        light.intensity as int,
        spec_fx_sub(65536, shadow_intensity),
    );
    let diffuse_intensity = imax(spec_v_dot(inter.normal, light_dir), 0);
    let diffuse_color = spec_get_diffuse_color(
        inter.material,
        textures,
        inter.uv.0 as int,
        inter.uv.1 as int,
    );
    let diffuse = spec_color_scale(
        spec_color_scale(
            spec_color_scale(
                spec_color_add(spec_color_scale(light.color, 5898), diffuse_color),
                inter.material.albedo.0 as int,
            ),
            diffuse_intensity,
        ),
        light_intensity,
    );
    let specular_intensity = spec_fx_pow(
        imax(spec_v_dot(view_dir, reflect_dir), 0),
        inter.material.shininess as nat,
    );
    let specular = spec_color_scale(
        spec_color_scale(
            spec_color_scale(light.color, inter.material.albedo.1 as int),
            specular_intensity,
        ),
        light_intensity,
    );
    spec_color_add(diffuse, specular)
}

/// The nearest positive-distance hit over the scene, scanned in order; on
/// exactly equal distances the earlier primitive wins.
pub open spec fn spec_nearest_hit(objects: Seq<Primitive>, o: Vec3, d: Vec3) -> Intersect
    decreases objects.len(),
{
    if objects.len() == 0 {
        spec_empty_intersect()
    } else {
        let prev = spec_nearest_hit(objects.drop_last(), o, d);
        let i = objects.last().intersect_spec(o, d);
        if i.is_intersecting && (!prev.is_intersecting || i.distance < prev.distance) {
            i
        } else {
            prev
        }
    }
}

/// The contributions of the primary light and every secondary light, summed
/// in order with saturation.
pub open spec fn spec_total_light(
    inter: Intersect,
    lights: Seq<Light>,
    objects: Seq<Primitive>,
    textures: Seq<Texture>,
    daylight: Light,
    ray_origin: Vec3,
) -> Color
    decreases lights.len(),
{
    if lights.len() == 0 {
        spec_light_contribution(inter, daylight, objects, textures, ray_origin)
    } else {
        spec_color_add(
            spec_total_light(inter, lights.drop_last(), objects, textures, daylight, ray_origin),
            spec_light_contribution(inter, lights.last(), objects, textures, ray_origin),
        )
    }
}

/// The background: the sky color scaled by the primary light's intensity,
/// saturating per channel. A function of the intensity alone.
pub open spec fn spec_background(daylight: Light) -> Color {
    spec_color_scale(Color { r: 135u8, g: 206u8, b: 250u8 }, daylight.intensity as int)
}

/// Every material a scene primitive carries may only bind texture indexes
/// that the table holds, and only well-formed textures.
pub open spec fn scene_wf(objects: Seq<Primitive>, textures: Seq<Texture>) -> bool {
    forall|j: int| 0 <= j < objects.len() ==> material_wf(material_of(#[trigger] objects[j]), textures)
}

/// The shading recurrence. Beyond the depth bound it terminates in the
/// neutral gray; a miss shades to the background; a hit accumulates the
/// lights' local terms and recurses for reflection and refraction, composing
/// local*(1 - reflectivity - transparency) + reflected*reflectivity
/// + refracted*transparency.
pub open spec fn spec_cast_ray(
    o: Vec3,
    d: Vec3,
    objects: Seq<Primitive>,
    daylight: Light,
    other_lights: Seq<Light>,
    textures: Seq<Texture>,
    depth: int,
) -> Color
    decreases 4 - depth,
{
    if depth > 3 {
        Color { r: 179u8, g: 179u8, b: 179u8 }
    } else {
        let inter = spec_nearest_hit(objects, o, d);
        if !inter.is_intersecting {
            spec_background(daylight)
        } else {
            let total = spec_total_light(inter, other_lights, objects, textures, daylight, o);
            let reflectivity = inter.material.reflectivity as int;
            let transparency = inter.material.transparency as int;
            let reflect_color = if reflectivity > 0 {
                let rd = spec_normalize(spec_reflect(d, inter.normal));
                let ro = spec_v_add(inter.point, spec_v_scale(inter.normal, 66));
                spec_cast_ray(ro, rd, objects, daylight, other_lights, textures, depth + 1)
            } else {
                Color { r: 0u8, g: 0u8, b: 0u8 }
            };
            let refract_color = if transparency > 0 {
                let rd = spec_normalize(
                    spec_refract(d, inter.normal, inter.material.refraction_index as int),
                );
                let ro = spec_offset_origin(inter, rd);
                spec_cast_ray(ro, rd, objects, daylight, other_lights, textures, depth + 1)
            } else {
                Color { r: 0u8, g: 0u8, b: 0u8 }
            };
            spec_color_add(
                spec_color_add(
                    spec_color_scale(
                        total,
                        spec_fx_sub(spec_fx_sub(65536, reflectivity), transparency),
                    ),
                    spec_color_scale(reflect_color, reflectivity),
                ),
                spec_color_scale(refract_color, transparency),
            )
        }
    }
}

/// The secondary-ray origin, biased off the surface toward the side the new
/// direction leaves by.
pub fn offset_origin(intersect: &Intersect, direction: &Vec3) -> (r: Vec3)
    ensures
        r == spec_offset_origin(*intersect, *direction),
{
    let offset = intersect.normal.scale(ORIGIN_BIAS);
    if direction.dot(&intersect.normal) < 0 {
        intersect.point.sub(&offset)
    } else {
        intersect.point.add(&offset)
    }
}

/// Mirror reflection of `incident` about `normal`.
pub fn reflect(incident: &Vec3, normal: &Vec3) -> (r: Vec3)
    ensures
        r == spec_reflect(*incident, *normal),
{
    incident.sub(&normal.scale(fx_mul(131072, incident.dot(normal))))
}

/// Snell refraction of `incident` at a surface with normal `normal` and
/// material refraction index `eta_t`: the index ratio is 1/eta_t on entry,
/// eta_t on exit; total internal reflection falls back to the mirror
/// formula.
pub fn refract(incident: &Vec3, normal: &Vec3, eta_t: i64) -> (r: Vec3)
    ensures
        r == spec_refract(*incident, *normal, eta_t as int),
{
    let dotv = incident.dot(normal);
    let cl: i64 = if dotv > 65536 {
        65536
    } else if dotv < -65536 {
        -65536
    } else {
        dotv
    };
    let cosi: i64 = -cl;
    let n_cosi: i64 = if cosi < 0 { -cosi } else { cosi };
    let eta: i64 = if cosi < 0 {
        eta_t
    } else {
        crate::fixed::fx_div(65536, eta_t)
    };
    let n_normal: Vec3 = if cosi < 0 { normal.neg() } else { *normal };
    let k = fx_sub(65536, fx_mul(fx_mul(eta, eta), fx_sub(65536, fx_mul(n_cosi, n_cosi))));
    if k < 0 {
        reflect(incident, &n_normal)
    } else {
        incident.scale(eta).add(&n_normal.scale(fx_sub(fx_mul(eta, n_cosi), crate::fixed::fx_sqrt(k))))
    }
}

/// The binary shadow factor: one fixed-point unit when any primitive blocks
/// the biased segment from the shaded point to the light, zero otherwise.
#[verifier::loop_isolation(false)]
pub fn cast_shadow(intersect: &Intersect, light: &Light, objects: &[Primitive]) -> (r: i64)
    ensures
        r == spec_cast_shadow(*intersect, *light, objects@),
{
    let light_dir = light.position.sub(&intersect.point).normalize();
    let shadow_ray_origin = offset_origin(intersect, &light_dir);
    let light_distance = light.position.sub(&shadow_ray_origin).magnitude();
    let mut idx: usize = 0;
    while idx < objects.len()
        invariant
            idx <= objects@.len(),
            forall|j: int|
                0 <= j < idx ==> !spec_occludes(
                    objects@[j],
                    shadow_ray_origin,
                    light_dir,
                    light_distance as int,
                ),
        decreases objects@.len() - idx,
    {
        let shadow_intersect = objects[idx].ray_intersect(&shadow_ray_origin, &light_dir);
        if shadow_intersect.is_intersecting && shadow_intersect.distance < light_distance {
            assert(spec_occludes(
                objects@[idx as int],
                shadow_ray_origin,
                light_dir,
                light_distance as int,
            ));
            return 65536;
        }
        idx = idx + 1;
    }
    0
}

/// One light's local Phong-like contribution at a shaded point.
pub fn light_contribution(
    intersect: &Intersect,
    light: &Light,
    objects: &[Primitive],
    textures: &[Texture],
    ray_origin: &Vec3,
) -> (c: Color)
    requires
        material_wf(intersect.material, textures@),
    ensures
        c == spec_light_contribution(*intersect, *light, objects@, textures@, *ray_origin),
{
    let light_dir = light.position.sub(&intersect.point).normalize();
    let view_dir = ray_origin.sub(&intersect.point).normalize();
    let reflect_dir = reflect(&light_dir.neg(), &intersect.normal).normalize();
    let shadow_intensity = cast_shadow(intersect, light, objects);
    let light_intensity = fx_mul(light.intensity, fx_sub(65536, shadow_intensity));
    let d = intersect.normal.dot(&light_dir);
    let diffuse_intensity: i64 = if d > 0 { d } else { 0 };
    let diffuse_color = intersect.material.get_diffuse_color(
        textures,
        intersect.uv.0,
        intersect.uv.1,
    );
    let diffuse = light.color.multiply(AMBIENT_WEIGHT).add(&diffuse_color).multiply(
        intersect.material.albedo.0,
    ).multiply(diffuse_intensity).multiply(light_intensity);
    let a = view_dir.dot(&reflect_dir);
    let specular_alignment: i64 = if a > 0 { a } else { 0 };
    let specular_intensity = fx_pow(specular_alignment, intersect.material.shininess);
    let specular = light.color.multiply(intersect.material.albedo.1).multiply(
        specular_intensity,
    ).multiply(light_intensity);
    diffuse.add(&specular)
}

/// The background for the current primary light.
pub fn calculate_background_color(daylight: &Light) -> (c: Color)
    ensures
        c == spec_background(*daylight),
{
    let base_blue = Color::new(135, 206, 250);
    base_blue.multiply(daylight.intensity)
}

/// Scans the scene in order for the nearest positive hit.
#[verifier::loop_isolation(false)]
fn nearest_hit(objects: &[Primitive], ray_origin: &Vec3, ray_direction: &Vec3) -> (r: Intersect)
    ensures
        r == spec_nearest_hit(objects@, *ray_origin, *ray_direction),
{
    let mut intersect = Intersect::empty();
    let mut idx: usize = 0;
    while idx < objects.len()
        invariant
            idx <= objects@.len(),
            intersect == spec_nearest_hit(objects@.take(idx as int), *ray_origin, *ray_direction),
        decreases objects@.len() - idx,
    {
        let i = objects[idx].ray_intersect(ray_origin, ray_direction);
        proof {
            assert(objects@.take(idx + 1).drop_last() =~= objects@.take(idx as int));
            assert(objects@.take(idx + 1).last() == objects@[idx as int]);
        }
        if i.is_intersecting && (!intersect.is_intersecting || i.distance < intersect.distance) {
            intersect = i;
        }
        idx = idx + 1;
    }
    proof {
        assert(objects@.take(objects@.len() as int) =~= objects@);
    }
    intersect
}

/// The material of the nearest hit is the material of some scene primitive,
/// so in a well-formed scene it only binds valid texture indexes; the empty
/// sentinel binds none.
pub proof fn lemma_nearest_hit_material(
    objects: Seq<Primitive>,
    o: Vec3,
    d: Vec3,
    textures: Seq<Texture>,
)
    requires
        scene_wf(objects, textures),
    ensures
        material_wf(spec_nearest_hit(objects, o, d).material, textures),
    decreases objects.len(),
{
    if objects.len() == 0 {
    } else {
        assert(scene_wf(objects.drop_last(), textures));
        lemma_nearest_hit_material(objects.drop_last(), o, d, textures);
        lemma_intersect_material(objects.last(), o, d);
        assert(objects[objects.len() - 1] == objects.last());
    }
}

/// The recursive shading engine; see `spec_cast_ray` for the recurrence it
/// computes.
#[verifier::loop_isolation(false)]
#[verifier::rlimit(100)]
#[verifier::spinoff_prover]
pub fn cast_ray(
    ray_origin: &Vec3,
    ray_direction: &Vec3,
    objects: &[Primitive],
    daylight: &Light,
    other_lights: &[Light],
    textures: &[Texture],
    depth: u32,
) -> (c: Color)
    requires
        scene_wf(objects@, textures@),
    ensures
        c == spec_cast_ray(
            *ray_origin,
            *ray_direction,
            objects@,
            *daylight,
            other_lights@,
            textures@,
            depth as int,
        ),
    decreases 4 - depth,
{
    if depth > MAX_DEPTH {
        return Color::new(179, 179, 179);
    }
    let intersect = nearest_hit(objects, ray_origin, ray_direction);
    if !intersect.is_intersecting {
        return calculate_background_color(daylight);
    }
    proof {
        lemma_nearest_hit_material(objects@, *ray_origin, *ray_direction, textures@);
    }

    let mut total_light = light_contribution(&intersect, daylight, objects, textures, ray_origin);
    let mut li: usize = 0;
    while li < other_lights.len()
        invariant
            li <= other_lights@.len(),
            total_light == spec_total_light(
                intersect,
                other_lights@.take(li as int),
                objects@,
                textures@,
                *daylight,
                *ray_origin,
            ),
        decreases other_lights@.len() - li,
    {
        proof {
            assert(other_lights@.take(li + 1).drop_last() =~= other_lights@.take(li as int));
            assert(other_lights@.take(li + 1).last() == other_lights@[li as int]);
        }
        let contribution = light_contribution(
            &intersect,
            &other_lights[li],
            objects,
            textures,
            ray_origin,
        );
        total_light = total_light.add(&contribution);
        li = li + 1;
    }
    proof {
        assert(other_lights@.take(other_lights@.len() as int) =~= other_lights@);
    }

    let reflectivity = intersect.material.reflectivity;
    let transparency = intersect.material.transparency;

    let mut reflect_color = Color::black();
    if reflectivity > 0 {
        let reflect_dir = reflect(ray_direction, &intersect.normal).normalize();
        let reflect_origin = intersect.point.add(&intersect.normal.scale(REFLECT_BIAS));
        reflect_color = cast_ray(
            &reflect_origin,
            &reflect_dir,
            objects,
            daylight,
            other_lights,
            textures,
            depth + 1,
        );
    }

    let mut refract_color = Color::black();
    if transparency > 0 {
        let refract_dir = refract(
            ray_direction,
            &intersect.normal,
            intersect.material.refraction_index,
        ).normalize();
        let refract_origin = offset_origin(&intersect, &refract_dir);
        refract_color = cast_ray(
            &refract_origin,
            &refract_dir,
            objects,
            daylight,
            other_lights,
            textures,
            depth + 1,
        );
    }

    total_light.multiply(fx_sub(fx_sub(65536, reflectivity), transparency)).add(
        &reflect_color.multiply(reflectivity),
    ).add(&refract_color.multiply(transparency))
}

/// A ray that misses every primitive shades to exactly the background color.
pub proof fn lemma_cast_ray_miss(
    o: Vec3,
    d: Vec3,
    objects: Seq<Primitive>,
    daylight: Light,
    other_lights: Seq<Light>,
    textures: Seq<Texture>,
    depth: int,
)
    requires
        depth <= 3,
        !spec_nearest_hit(objects, o, d).is_intersecting,
    ensures
        spec_cast_ray(o, d, objects, daylight, other_lights, textures, depth) == spec_background(
            daylight,
        ),
{
}

/// The background color is a function of the primary light's intensity
/// alone.
pub proof fn lemma_background_intensity_only(l1: Light, l2: Light)
    requires
        l1.intensity == l2.intensity,
    ensures
        spec_background(l1) == spec_background(l2),
{
}

/// Recursion depth exhaustion is defined terminal behavior: beyond the
/// bound the recurrence returns the fixed neutral gray.
pub proof fn lemma_cast_ray_terminal(
    o: Vec3,
    d: Vec3,
    objects: Seq<Primitive>,
    daylight: Light,
    other_lights: Seq<Light>,
    textures: Seq<Texture>,
    depth: int,
)
    requires
        depth > 3,
    ensures
        spec_cast_ray(o, d, objects, daylight, other_lights, textures, depth) == (Color {
            r: 179u8,
            g: 179u8,
            b: 179u8,
        }),
{
}

/// A fully occluded light contributes nothing: when an opaque primitive
/// sits between the light and the shaded point, both the diffuse and the
/// specular term vanish.
pub proof fn lemma_shadow_zeroes_contribution(
    inter: Intersect,
    light: Light,
    objects: Seq<Primitive>,
    textures: Seq<Texture>,
    ray_origin: Vec3,
)
    requires
        spec_cast_shadow(inter, light, objects) == 65536,
    ensures
        spec_light_contribution(inter, light, objects, textures, ray_origin) == (Color {
            r: 0u8,
            g: 0u8,
            b: 0u8,
        }),
{
    assert(spec_fx_sub(65536, 65536) == 0);
    assert(spec_fx_mul(light.intensity as int, 0) == 0);
    let light_dir = spec_normalize(spec_v_sub(light.position, inter.point));
    let view_dir = spec_normalize(spec_v_sub(ray_origin, inter.point));
    let reflect_dir = spec_normalize(spec_reflect(spec_v_neg(light_dir), inter.normal));
    let diffuse_intensity = imax(spec_v_dot(inter.normal, light_dir), 0);
    let diffuse_color = spec_get_diffuse_color(
        inter.material,
        textures,
        inter.uv.0 as int,
        inter.uv.1 as int,
    );
    let diffuse_pre = spec_color_scale(
        spec_color_scale(
            spec_color_add(spec_color_scale(light.color, 5898), diffuse_color),
            inter.material.albedo.0 as int,
        ),
        diffuse_intensity,
    );
    let specular_intensity = spec_fx_pow(
        imax(spec_v_dot(view_dir, reflect_dir), 0),
        inter.material.shininess as nat,
    );
    let specular_pre = spec_color_scale(
        spec_color_scale(light.color, inter.material.albedo.1 as int),
        specular_intensity,
    );
    lemma_color_scale_zero(diffuse_pre);
    lemma_color_scale_zero(specular_pre);
    lemma_color_add_black(Color { r: 0u8, g: 0u8, b: 0u8 });
}

/// A perfect mirror passes the recursion through: with reflectivity one and
/// transparency zero the shaded color is exactly the color of the reflected
/// ray cast one level deeper, so a mirror facing only the background
/// converges, after the depth bound, to the neutral terminal color.
pub proof fn lemma_mirror_passthrough(
    o: Vec3,
    d: Vec3,
    objects: Seq<Primitive>,
    daylight: Light,
    other_lights: Seq<Light>,
    textures: Seq<Texture>,
    depth: int,
)
    requires
        depth <= 3,
        spec_nearest_hit(objects, o, d).is_intersecting,
        spec_nearest_hit(objects, o, d).material.reflectivity == 65536,
        spec_nearest_hit(objects, o, d).material.transparency == 0,
    ensures
        ({
            let inter = spec_nearest_hit(objects, o, d);
            let rd = spec_normalize(spec_reflect(d, inter.normal));
            let ro = spec_v_add(inter.point, spec_v_scale(inter.normal, 66));
            spec_cast_ray(o, d, objects, daylight, other_lights, textures, depth)
                == spec_cast_ray(ro, rd, objects, daylight, other_lights, textures, depth + 1)
        }),
{
    let inter = spec_nearest_hit(objects, o, d);
    let total = spec_total_light(inter, other_lights, objects, textures, daylight, o);
    let rd = spec_normalize(spec_reflect(d, inter.normal));
    let ro = spec_v_add(inter.point, spec_v_scale(inter.normal, 66));
    let reflect_color = spec_cast_ray(ro, rd, objects, daylight, other_lights, textures, depth + 1);
    assert(spec_fx_sub(spec_fx_sub(65536, 65536), 0) == 0);
    lemma_color_scale_zero(total);
    lemma_color_scale_one(reflect_color);
    lemma_color_scale_zero(Color { r: 0u8, g: 0u8, b: 0u8 });
    lemma_color_add_black(reflect_color);
}

} // verus!
