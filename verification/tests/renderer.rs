use tracer::camera::{CamerBuilder, Camera};
use tracer::frame::Framebuffer;
use tracer::geometry::aabb::{Aabb, Slab};
use tracer::geometry::hittable::HittableList;
use tracer::geometry::sphere::Sphere;
use tracer::geometry::Geometry;
use tracer::intersection::hit_record::HitRecord;
use tracer::intersection::ray::Ray;
use tracer::material::diffuse_light::DiffuseLight;
use tracer::material::lambertian::Lambertian;
use tracer::material::metal::Metal;
use tracer::material::{MaterialType, ScatterRecord};
use tracer::renderer::{RenderSettings, Renderer};
use tracer::scalar::Scalar;
use tracer::texture::checker::Checker;
use tracer::texture::solid::Solid;
use tracer::texture::Textures;
use tracer::vec3::Vec3;

fn s(x: f32) -> Scalar {
    Scalar::from_bits(x.to_bits())
}

fn f(x: Scalar) -> f32 {
    f32::from_bits(x.to_bits())
}

fn v(x: f32, y: f32, z: f32) -> Vec3 {
    Vec3::new(s(x), s(y), s(z))
}

fn arr(p: Vec3) -> [f32; 3] {
    [f(p.x), f(p.y), f(p.z)]
}

fn vec(a: [f32; 3]) -> Vec3 {
    v(a[0], a[1], a[2])
}

fn dot(a: [f32; 3], b: [f32; 3]) -> f32 {
    a[0] * b[0] + a[1] * b[1] + a[2] * b[2]
}

fn slab(min: f32, max: f32, origin: f32, direction: f32) -> Slab {
    let inv_d = 1.0 / direction;
    Slab::new(s(inv_d), s((min - origin) * inv_d), s((max - origin) * inv_d))
}

fn box_hit(b: &Aabb, r: &Ray, t_min: Scalar, t_max: Scalar) -> bool {
    let o = arr(r.origin);
    let d = arr(r.direction);
    Aabb::hit(
        slab(f(b.min.x), f(b.max.x), o[0], d[0]),
        slab(f(b.min.y), f(b.max.y), o[1], d[1]),
        slab(f(b.min.z), f(b.max.z), o[2], d[2]),
        t_min,
        t_max,
    )
}

fn leaf_hit(g: &Geometry, r: &Ray, t_min: Scalar, t_max: Scalar) -> Option<HitRecord> {
    let sp = match g {
        Geometry::Sphere(sp) => sp,
        _ => return None,
    };
    let o = arr(r.origin);
    let d = arr(r.direction);
    let c = arr(sp.center);
    let radius = f(sp.radius);
    let oc = [o[0] - c[0], o[1] - c[1], o[2] - c[2]];
    let a = dot(d, d);
    let half_b = dot(oc, d);
    let cc = dot(oc, oc) - radius * radius;
    let discriminant = half_b * half_b - a * cc;
    let sqrtd = discriminant.sqrt();
    let root = Sphere::select_root(
        s(discriminant),
        s((-half_b - sqrtd) / a),
        s((-half_b + sqrtd) / a),
        t_min,
        t_max,
    )?;
    let t = f(root);
    let p = [o[0] + d[0] * t, o[1] + d[1] * t, o[2] + d[2] * t];
    let n = [(p[0] - c[0]) / radius, (p[1] - c[1]) / radius, (p[2] - c[2]) / radius];
    Some(HitRecord::new(root, vec(p), vec(n), s(dot(d, n)), sp.material_index, s(0.0), s(0.0)))
}

fn scatter(
    m: &MaterialType,
    r: &Ray,
    rec: &HitRecord,
    _sample: u32,
    _depth: u32,
) -> Option<ScatterRecord> {
    match m {
        MaterialType::Lambertian(l) => {
            // the "random" unit vector is the normal itself: straight away from the surface
            let n = arr(rec.normal);
            l.scatter(r, rec, vec([n[0] + n[0], n[1] + n[1], n[2] + n[2]]))
        }
        MaterialType::Metal(metal) => {
            let d = arr(r.direction);
            let len = dot(d, d).sqrt();
            let d = [d[0] / len, d[1] / len, d[2] / len];
            let n = arr(rec.normal);
            let k = 2.0 * dot(d, n);
            let reflected = [d[0] - n[0] * k, d[1] - n[1] * k, d[2] - n[2] * k];
            metal.scatter(r, rec, vec(reflected), s(dot(reflected, n)))
        }
        MaterialType::DiffuseLight(l) => l.scatter(),
        _ => None,
    }
}

fn colors() -> Vec<[f32; 3]> {
    vec![[1.0, 1.0, 1.0], [0.5, 0.25, 0.125], [4.0, 4.0, 4.0]]
}

fn texture_value(index: usize, _rec: &HitRecord) -> Vec3 {
    vec(colors()[index])
}

fn blend(emitted: Vec3, attenuation: Vec3, incoming: Vec3) -> Vec3 {
    let e = arr(emitted);
    let a = arr(attenuation);
    let i = arr(incoming);
    vec([e[0] + a[0] * i[0], e[1] + a[1] * i[1], e[2] + a[2] * i[2]])
}

fn develop(sum: Vec3, samples: u32) -> Vec3 {
    let c = arr(sum);
    let k = 1.0 / samples as f32;
    vec([(c[0] * k).sqrt(), (c[1] * k).sqrt(), (c[2] * k).sqrt()])
}

fn quantize(color: Vec3) -> [u8; 3] {
    let c = arr(color);
    [(c[0] * 255.99) as u8, (c[1] * 255.99) as u8, (c[2] * 255.99) as u8]
}

const WIDTH: u32 = 16;
const HEIGHT: u32 = 16;

/// A pinhole at the origin that looks down the negative z axis through the
/// centres of the pixels of a square two units wide, one unit away.
fn primary_ray(x: u32, y: u32, _sample: u32) -> Ray {
    let u = (x as f32 + 0.5) / WIDTH as f32;
    let w = 1.0 - (y as f32 + 0.5) / HEIGHT as f32;
    Ray::new(v(0.0, 0.0, 0.0), v(-1.0 + 2.0 * u, -1.0 + 2.0 * w, -1.0), s(0.0))
}

fn camera() -> Camera {
    Camera {
        horizontal: v(2.0, 0.0, 0.0),
        origin: v(0.0, 0.0, 0.0),
        lower_left_corner: v(-1.0, -1.0, -1.0),
        vertical: v(0.0, 2.0, 0.0),
        u: v(1.0, 0.0, 0.0),
        v: v(0.0, 1.0, 0.0),
        w: v(0.0, 0.0, 1.0),
        lens_radius: s(0.0),
        time0: s(0.0),
        time1: s(0.0),
    }
}

fn scene(material: MaterialType, background: [f32; 3], samples: u32, max_depth: u32) -> Renderer {
    let textures = vec![
        Textures::Solid(Solid::new(vec(colors()[0]))),
        Textures::Solid(Solid::new(vec(colors()[1]))),
        Textures::Solid(Solid::new(vec(colors()[2]))),
    ];
    let geometry = HittableList::new(vec![Geometry::Sphere(Sphere::new(v(0.0, 0.0, -3.0), s(1.0), 0))]);
    let settings = RenderSettings::new(
        WIDTH,
        s(1.0),
        samples,
        max_depth,
        vec(background),
        "out.ppm".to_string(),
    );
    Renderer::new(vec![material], textures, geometry, camera(), settings)
}

fn covers(x: u32, y: u32) -> bool {
    let r = primary_ray(x, y, 0);
    leaf_hit(
        &Geometry::Sphere(Sphere::new(v(0.0, 0.0, -3.0), s(1.0), 0)),
        &r,
        s(0.001),
        s(f32::INFINITY),
    )
    .is_some()
}

fn pixel(renderer: &Renderer, x: u32, y: u32) -> [u8; 3] {
    renderer.per_pixel(
        x,
        y,
        &primary_ray,
        &box_hit,
        &leaf_hit,
        &scatter,
        &texture_value,
        &blend,
        &develop,
        &quantize,
    )
}

fn color(renderer: &Renderer, r: &Ray, depth: u32) -> Vec3 {
    renderer.ray_color(r, depth, 0, &box_hit, &leaf_hit, &scatter, &texture_value, &blend)
}

#[test]
fn no_bounce_left_is_black() {
    let renderer = scene(MaterialType::Lambertian(Lambertian::new(0, None)), [1.0, 1.0, 1.0], 1, 5);
    let at_sphere = Ray::new(v(0.0, 0.0, 0.0), v(0.0, 0.0, -1.0), s(0.0));
    let at_nothing = Ray::new(v(0.0, 0.0, 0.0), v(0.0, 0.0, 1.0), s(0.0));
    assert_eq!(color(&renderer, &at_sphere, 0), v(0.0, 0.0, 0.0));
    assert_eq!(color(&renderer, &at_nothing, 0), v(0.0, 0.0, 0.0));
}

#[test]
fn a_miss_is_the_background() {
    let renderer = scene(MaterialType::Lambertian(Lambertian::new(0, None)), [0.2, 0.4, 0.6], 1, 5);
    let at_nothing = Ray::new(v(0.0, 0.0, 0.0), v(0.0, 1.0, 0.0), s(0.0));
    assert_eq!(color(&renderer, &at_nothing, 1), v(0.2, 0.4, 0.6));
    assert_eq!(color(&renderer, &at_nothing, 50), v(0.2, 0.4, 0.6));
}

#[test]
fn a_light_gives_off_its_texture() {
    let renderer = scene(MaterialType::DiffuseLight(DiffuseLight::new(2)), [0.0, 0.0, 0.0], 1, 5);
    let at_sphere = Ray::new(v(0.0, 0.0, 0.0), v(0.0, 0.0, -1.0), s(0.0));
    assert_eq!(color(&renderer, &at_sphere, 1), v(4.0, 4.0, 4.0));
    assert_eq!(color(&renderer, &at_sphere, 7), v(4.0, 4.0, 4.0));
}

#[test]
fn a_bounce_tints_what_comes_back() {
    // the sphere is tinted by texture 1 and the scattered ray meets the background
    let renderer = scene(MaterialType::Lambertian(Lambertian::new(1, None)), [1.0, 0.5, 0.25], 1, 5);
    let at_sphere = Ray::new(v(0.0, 0.0, 0.0), v(0.0, 0.0, -1.0), s(0.0));
    assert_eq!(color(&renderer, &at_sphere, 2), v(0.5, 0.125, 0.03125));
    // with a single bounce the scattered ray is not followed
    assert_eq!(color(&renderer, &at_sphere, 1), v(0.0, 0.0, 0.0));
}

#[test]
fn a_shining_surface_adds_its_light() {
    let renderer = scene(
        MaterialType::Lambertian(Lambertian::new(1, Some(2))),
        [1.0, 1.0, 1.0],
        1,
        5,
    );
    let at_sphere = Ray::new(v(0.0, 0.0, 0.0), v(0.0, 0.0, -1.0), s(0.0));
    assert_eq!(color(&renderer, &at_sphere, 2), v(4.5, 4.25, 4.125));
}

#[test]
fn an_absorbed_ray_leaves_what_the_surface_gives_off() {
    // a mirror seen from inside out: the reflection does not leave the surface
    let renderer = scene(MaterialType::Metal(Metal::new(0, s(0.0), Some(1))), [1.0, 1.0, 1.0], 1, 5);
    let absorbing =
        |_: &MaterialType, _: &Ray, _: &HitRecord, _: u32, _: u32| -> Option<ScatterRecord> { None };
    let at_sphere = Ray::new(v(0.0, 0.0, 0.0), v(0.0, 0.0, -1.0), s(0.0));
    let got = renderer.ray_color(&at_sphere, 5, 0, &box_hit, &leaf_hit, &absorbing, &texture_value, &blend);
    assert_eq!(got, v(0.5, 0.25, 0.125));
}

#[test]
fn white_sphere_on_white_with_one_bounce() {
    // with a single bounce a ray that meets the sphere is not followed any
    // further: the sphere is black, and everything else is the background
    let renderer = scene(MaterialType::Lambertian(Lambertian::new(0, None)), [1.0, 1.0, 1.0], 1, 1);
    let mut covered = 0;
    for y in 0..HEIGHT {
        for x in 0..WIDTH {
            let got = pixel(&renderer, x, y);
            if covers(x, y) {
                covered += 1;
                assert_eq!(got, [0, 0, 0]);
            } else {
                assert_eq!(got, [255, 255, 255]);
            }
        }
    }
    assert!(covered > 10 && covered < 100);
}

#[test]
fn white_sphere_on_white_with_two_bounces() {
    let renderer = scene(MaterialType::Lambertian(Lambertian::new(0, None)), [1.0, 1.0, 1.0], 1, 2);
    for y in 0..HEIGHT {
        for x in 0..WIDTH {
            let got = pixel(&renderer, x, y);
            if covers(x, y) {
                assert_ne!(got, [0, 0, 0]);
            } else {
                assert_eq!(got, [255, 255, 255]);
            }
        }
    }
}

#[test]
fn rendering_twice_gives_the_same_frame() {
    let renderer = scene(MaterialType::Lambertian(Lambertian::new(1, Some(2))), [0.3, 0.6, 0.9], 3, 4);
    let render = || {
        let mut pixels = Vec::new();
        for y in 0..HEIGHT {
            for x in 0..WIDTH {
                pixels.push(pixel(&renderer, x, y));
            }
        }
        Framebuffer::from_pixels(WIDTH, HEIGHT, pixels).unwrap().to_ppm()
    };
    assert_eq!(render(), render());
}

#[test]
fn samples_are_averaged() {
    // every sample of a background pixel is the background, so is their average
    let renderer = scene(MaterialType::Lambertian(Lambertian::new(0, None)), [0.25, 0.25, 0.25], 4, 3);
    assert_eq!(pixel(&renderer, 0, 0), [127, 127, 127]);
}

#[test]
fn colours_are_clamped() {
    assert_eq!(Renderer::clamp_color(v(0.5, 0.25, 0.75)), v(0.5, 0.25, 0.75));
    assert_eq!(Renderer::clamp_color(v(-1.0, 2.0, 0.999)), v(0.0, 0.999, 0.999));
    assert_eq!(Renderer::clamp_color(v(f32::INFINITY, f32::NEG_INFINITY, 1.0)), v(0.999, 0.0, 0.999));
    // a light brighter than white is clamped before it is scaled
    let renderer = scene(MaterialType::DiffuseLight(DiffuseLight::new(2)), [0.0, 0.0, 0.0], 1, 5);
    assert_eq!(pixel(&renderer, WIDTH / 2, HEIGHT / 2), [255, 255, 255]);
}

#[test]
fn scene_indices_are_checked() {
    let good = scene(MaterialType::Lambertian(Lambertian::new(2, Some(0))), [0.0, 0.0, 0.0], 1, 1);
    assert!(good.is_well_formed());
    let bad_texture = scene(MaterialType::Lambertian(Lambertian::new(3, None)), [0.0, 0.0, 0.0], 1, 1);
    assert!(!bad_texture.is_well_formed());
    let bad_emitted = scene(MaterialType::Lambertian(Lambertian::new(0, Some(3))), [0.0, 0.0, 0.0], 1, 1);
    assert!(!bad_emitted.is_well_formed());
    let mut bad_material = scene(MaterialType::Lambertian(Lambertian::new(0, None)), [0.0, 0.0, 0.0], 1, 1);
    bad_material.geometry.objects.push(Geometry::Sphere(Sphere::new(v(0.0, 0.0, 0.0), s(1.0), 1)));
    assert!(!bad_material.is_well_formed());
    let mut bad_checker = scene(MaterialType::Lambertian(Lambertian::new(0, None)), [0.0, 0.0, 0.0], 1, 1);
    bad_checker.textures.push(Textures::Checker(Checker::new(0, 4, s(1.0))));
    assert!(!bad_checker.is_well_formed());
}

#[test]
fn settings_hold_their_fields() {
    let st = RenderSettings::new(400, s(16.0 / 9.0), 100, 50, v(0.0, 0.0, 0.0), "a.png".to_string());
    assert_eq!(st.image_width, 400);
    assert_eq!(st.aspect_ratio, s(16.0 / 9.0));
    assert_eq!(st.samples, 100);
    assert_eq!(st.max_depth, 50);
    assert_eq!(st.background_color, v(0.0, 0.0, 0.0));
    assert_eq!(st.path, "a.png");
}

#[test]
fn camera_description_and_focus() {
    let b = CamerBuilder::new(
        v(13.0, 2.0, 3.0),
        v(0.0, 0.0, 0.0),
        v(0.0, 1.0, 0.0),
        s(20.0),
        s(16.0 / 9.0),
        s(1.0),
        None,
        s(0.0),
        s(1.0),
    );
    assert_eq!(b.look_from, v(13.0, 2.0, 3.0));
    assert_eq!(b.vfov, s(20.0));
    assert_eq!(b.focus_distance(s(13.49)), s(13.49));
    let fixed = CamerBuilder { focus_dist: Some(s(10.0)), ..b };
    assert_eq!(fixed.focus_distance(s(13.49)), s(10.0));
}

#[test]
fn usual_settings() {
    let st = RenderSettings::with_defaults(640, "b.ppm".to_string());
    assert_eq!(st.image_width, 640);
    assert_eq!(st.aspect_ratio, s(16.0 / 9.0));
    assert_eq!(st.samples, 10);
    assert_eq!(st.max_depth, 50);
    assert_eq!(st.background_color, v(0.0, 0.0, 0.0));
    assert_eq!(st.path, "b.ppm");
}

#[test]
fn usual_camera() {
    let b = CamerBuilder::with_defaults(v(13.0, 2.0, 3.0), v(0.0, 0.0, 0.0));
    assert_eq!(b.look_from, v(13.0, 2.0, 3.0));
    assert_eq!(b.look_at, v(0.0, 0.0, 0.0));
    assert_eq!(b.vup, v(0.0, 1.0, 0.0));
    assert_eq!(b.vfov, s(20.0));
    assert_eq!(b.aspect_ratio, s(16.0 / 9.0));
    assert_eq!(b.aperture, s(1.0));
    assert_eq!(b.focus_dist, None);
    assert_eq!(b.time0, s(0.0));
    assert_eq!(b.time1, s(1.0));
}

/// A draw in [0, 1) that is fixed by a seed and a few numbers.
fn draw(seed: u32, words: &[u32]) -> f32 {
    let mut state: u64 = 0xcbf2_9ce4_8422_2325 ^ seed as u64;
    for w in words {
        state = (state ^ *w as u64).wrapping_mul(0x0000_0100_0000_01b3);
        state ^= state >> 29;
    }
    ((state >> 40) as f32) / (1u64 << 24) as f32
}

fn jittered_pixel(renderer: &Renderer, seed: u32, x: u32, y: u32) -> [u8; 3] {
    let jittered = |x: u32, y: u32, sample: u32| -> Ray {
        let u = (x as f32 + draw(seed, &[0, x, y, sample])) / WIDTH as f32;
        let w = 1.0 - (y as f32 + draw(seed, &[1, x, y, sample])) / HEIGHT as f32;
        Ray::new(v(0.0, 0.0, 0.0), v(-1.0 + 2.0 * u, -1.0 + 2.0 * w, -1.0), s(0.0))
    };
    let random_scatter =
        |m: &MaterialType, r: &Ray, rec: &HitRecord, sample: u32, depth: u32| -> Option<ScatterRecord> {
            match m {
                MaterialType::Lambertian(l) => {
                    let n = arr(rec.normal);
                    let a = 6.2831855 * draw(seed, &[2, x, y, sample, depth]);
                    let z = 2.0 * draw(seed, &[3, x, y, sample, depth]) - 1.0;
                    let k = (1.0 - z * z).sqrt();
                    l.scatter(r, rec, vec([n[0] + k * a.cos(), n[1] + k * a.sin(), n[2] + z]))
                }
                _ => None,
            }
        };
    renderer.per_pixel(
        x,
        y,
        &jittered,
        &box_hit,
        &leaf_hit,
        &random_scatter,
        &texture_value,
        &blend,
        &develop,
        &quantize,
    )
}

#[test]
fn a_seeded_render_with_jitter_is_the_same_in_any_order() {
    let renderer = scene(MaterialType::Lambertian(Lambertian::new(1, None)), [0.3, 0.6, 0.9], 8, 4);
    let mut forwards = Vec::new();
    for y in 0..HEIGHT {
        for x in 0..WIDTH {
            forwards.push(jittered_pixel(&renderer, 7, x, y));
        }
    }
    // the same pixels, rendered last to first
    let mut backwards = vec![[0u8; 3]; (WIDTH * HEIGHT) as usize];
    for y in (0..HEIGHT).rev() {
        for x in (0..WIDTH).rev() {
            backwards[(y * WIDTH + x) as usize] = jittered_pixel(&renderer, 7, x, y);
        }
    }
    assert_eq!(forwards, backwards);
    // another seed gives another picture
    let other: Vec<[u8; 3]> = (0..WIDTH * HEIGHT)
        .map(|i| jittered_pixel(&renderer, 8, i % WIDTH, i / WIDTH))
        .collect();
    assert_ne!(forwards, other);
}

#[test]
fn operations_are_told_sample_and_bounce() {
    let renderer = scene(MaterialType::Lambertian(Lambertian::new(1, None)), [1.0, 1.0, 1.0], 3, 4);
    let samples = std::cell::RefCell::new(Vec::new());
    let bounces = std::cell::RefCell::new(Vec::new());
    let counting = |x: u32, y: u32, sample: u32| -> Ray {
        samples.borrow_mut().push(sample);
        primary_ray(x, y, sample)
    };
    let noting = |m: &MaterialType, r: &Ray, rec: &HitRecord, sample: u32, depth: u32| {
        bounces.borrow_mut().push((sample, depth));
        scatter(m, r, rec, sample, depth)
    };
    renderer.per_pixel(
        WIDTH / 2,
        HEIGHT / 2,
        &counting,
        &box_hit,
        &leaf_hit,
        &noting,
        &texture_value,
        &blend,
        &develop,
        &quantize,
    );
    assert_eq!(*samples.borrow(), vec![0, 1, 2]);
    // every sample meets the sphere once, with all four bounces left, and then leaves the scene
    assert_eq!(*bounces.borrow(), vec![(0, 4), (1, 4), (2, 4)]);
}
