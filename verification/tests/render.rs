//! Materials, textures, the camera and whole-image renders on small scenes.
//! Coordinates are fixed point: 1.0 is `SCALE` raw units.

use ray::camera::Camera;
use ray::fx::{FX_ONE, SCALE};
use ray::hitable::{BVHNode, Hitable, Sphere};
use ray::image::Image;
use ray::material::{schlick, Dielectric, Diffuse, Light, Material, Specular};
use ray::ray::Ray;
use ray::rng::Rng;
use ray::scene::{to_rgb8, Background, Color, Gradient, Scene};
use ray::texture::{Checkered, Checkered3D, PerlinVariant, Perlin, SimpleGradient, Solid, Texture};
use ray::vec3::Vec3;

fn v(x: i64, y: i64, z: i64) -> Vec3 {
    Vec3::new(x * SCALE, y * SCALE, z * SCALE)
}

fn black() -> Color {
    Vec3::zero()
}

fn grey() -> Color {
    Vec3::from_scalar(SCALE / 2)
}

#[test]
fn schlick_is_a_probability() {
    // exactly the stored base reflectance at normal incidence
    assert_eq!(schlick(FX_ONE, 3 * SCALE / 2), 2621);
    // full reflection at grazing incidence
    assert_eq!(schlick(0, 3 * SCALE / 2), FX_ONE);
    let mut cos = 0;
    while cos <= FX_ONE {
        let mut idx = FX_ONE;
        while idx <= 4 * SCALE {
            let p = schlick(cos, idx);
            assert!(0 <= p && p <= FX_ONE);
            idx += SCALE / 3;
        }
        cos += SCALE / 7;
    }
}

#[test]
fn light_absorbs_and_emits() {
    let m = Material::Light(Light::new(Texture::Solid(Solid::new(grey()))));
    let mut rng = Rng::new(5);
    let res = m.scatter(
        Ray::new(v(0, 0, 0), v(0, 0, -1)),
        v(0, 0, 1),
        v(0, 0, 0),
        0,
        0,
        &mut rng,
    );
    assert!(res.is_none());
    assert_eq!(m.emit(0, 0, v(0, 0, 0)), grey());
    let d = Material::Diffuse(Diffuse::new(Texture::Solid(Solid::new(grey()))));
    assert_eq!(d.emit(0, 0, v(0, 0, 0)), black());
}

#[test]
fn diffuse_scatters_from_the_hit_point() {
    let m = Material::Diffuse(Diffuse::new(Texture::Solid(Solid::new(grey()))));
    let mut rng = Rng::new(5);
    let (att, scattered) = m
        .scatter(
            Ray::new(v(0, 0, 0), v(0, 0, -1)),
            v(0, 0, 1),
            v(1, 2, 3),
            0,
            0,
            &mut rng,
        )
        .unwrap();
    assert_eq!(att, grey());
    assert_eq!(scattered.origin, v(1, 2, 3));
}

#[test]
fn fuzzless_specular_is_an_exact_mirror() {
    let m = Material::Specular(Specular::new(grey(), 0));
    let mut rng = Rng::new(5);
    let (att, scattered) = m
        .scatter(
            Ray::new(v(0, 0, 1), v(0, 0, 1)),
            v(0, 0, -1),
            v(0, 0, 0),
            0,
            0,
            &mut rng,
        )
        .unwrap();
    assert_eq!(att, grey());
    assert_eq!(scattered.dir, v(0, 0, -1));
    // a reflection leaving into the surface is absorbed
    let res = m.scatter(
        Ray::new(v(0, 0, 1), v(0, 0, 1)),
        v(0, 0, 1),
        v(0, 0, 0),
        0,
        0,
        &mut rng,
    );
    assert!(res.is_none());
}

#[test]
fn dielectric_always_scatters() {
    let m = Material::Dielectric(Dielectric::new(Vec3::from_scalar(SCALE), 3 * SCALE / 2));
    let mut rng = Rng::new(5);
    for _ in 0..20 {
        let (att, scattered) = m
            .scatter(
                Ray::new(v(0, 0, 2), v(0, 0, -1)),
                v(0, 0, 1),
                v(0, 0, 1),
                0,
                0,
                &mut rng,
            )
            .unwrap();
        assert_eq!(att, Vec3::from_scalar(SCALE));
        assert_eq!(scattered.origin, v(0, 0, 1));
    }
}

#[test]
fn textures_answer_exactly() {
    let red = Vec3::new(SCALE, 0, 0);
    let blue = Vec3::new(0, 0, SCALE);
    let solid = Texture::Solid(Solid::new(red));
    assert_eq!(solid.value(123, 456, v(7, 8, 9)), red);
    let grad = Texture::Gradient(SimpleGradient {});
    let g = grad.value(SCALE / 4, SCALE / 2, v(0, 0, 0));
    assert_eq!(g, Vec3::new(SCALE / 4, SCALE / 2, SCALE / 4));
    let check = Texture::Checkered(Checkered::new(
        Texture::Solid(Solid::new(red)),
        Texture::Solid(Solid::new(blue)),
        4 * SCALE,
    ));
    // at (0.5, 1.0) the sine product is negative: the first texture
    assert_eq!(check.value(SCALE / 2, SCALE, v(0, 0, 0)), red);
    // at (0.5, 0.5) it is positive: the second
    assert_eq!(check.value(SCALE / 2, SCALE / 2, v(0, 0, 0)), blue);
}

#[test]
fn checkered_3d_follows_position() {
    let red = Vec3::new(SCALE, 0, 0);
    let blue = Vec3::new(0, 0, SCALE);
    let check = Texture::Checkered3D(Checkered3D::new(
        Texture::Solid(Solid::new(red)),
        Texture::Solid(Solid::new(blue)),
        4 * SCALE,
    ));
    // the triple sine product at (0.5, 0.5, 1.0) has exactly one negative
    // factor: the first texture
    assert_eq!(
        check.value(0, 0, Vec3::new(SCALE / 2, SCALE / 2, SCALE)),
        red
    );
    // at (0.5, 0.5, 0.5) all factors are positive: the second
    assert_eq!(
        check.value(0, 0, Vec3::from_scalar(SCALE / 2)),
        blue
    );
}

#[test]
fn perlin_variants_run() {
    let mut rng = Rng::new(21);
    let marble = Texture::Perlin(Perlin::new(
        2 * SCALE,
        grey(),
        PerlinVariant::Marble,
        &mut rng,
    ));
    let rock = Texture::Perlin(Perlin::new(2 * SCALE, grey(), PerlinVariant::Rock, &mut rng));
    let a = marble.value(0, 0, v(1, 2, 3));
    assert_eq!(a, marble.value(0, 0, v(1, 2, 3)));
    let b = rock.value(0, 0, v(3, 2, 1));
    assert_eq!(b, rock.value(0, 0, v(3, 2, 1)));
}

#[test]
fn rgb8_buffer_shape() {
    let scene = black_scene();
    let bytes = scene.render_rgb8(5);
    assert_eq!(bytes.len(), 3 * 8 * 4);
    for b in bytes {
        assert_eq!(b, 0u8);
    }
}

#[test]
fn perlin_is_deterministic() {
    let mut rng = Rng::new(11);
    let p = Perlin::new(SCALE, grey(), PerlinVariant::Noise, &mut rng);
    let a = p.noise(v(1, 2, 3).add(Vec3::new(123, 45, 6)));
    let b = p.noise(v(1, 2, 3).add(Vec3::new(123, 45, 6)));
    assert_eq!(a, b);
    let t = p.turb(v(1, 2, 3));
    assert!(t >= 0);
    let tex = Texture::Perlin(p);
    let c1 = tex.value(0, 0, v(1, 2, 3));
    let c2 = tex.value(0, 0, v(1, 2, 3));
    assert_eq!(c1, c2);
}

#[test]
fn image_lookup_is_nearest_pixel() {
    // a 2 x 2 image: row 0 (visual top) red then green, row 1 blue then white
    let data: Vec<u8> = vec![
        255, 0, 0, 0, 255, 0, //
        0, 0, 255, 255, 255, 255,
    ];
    let img = Image::new(2, 2, data).unwrap();
    let unit = |b: u8| (b as i64 * SCALE) / 255;
    // v = 0.75 is in the top half, u = 0.25 in the left half
    assert_eq!(
        img.value(SCALE / 4, 3 * SCALE / 4),
        Vec3::new(unit(255), 0, 0)
    );
    // v = 0.25 bottom half, u = 0.75 right half
    assert_eq!(
        img.value(3 * SCALE / 4, SCALE / 4),
        Vec3::new(unit(255), unit(255), unit(255))
    );
}

#[test]
fn image_rejects_mismatched_buffers() {
    assert!(Image::new(0, 2, vec![0; 12]).is_none());
    assert!(Image::new(2, 2, vec![0; 11]).is_none());
    assert!(Image::new(2, 2, vec![0; 12]).is_some());
}

#[test]
fn gamma_encoding_values() {
    let data = vec![
        Vec3::new(SCALE, SCALE / 4, 0),
        Vec3::new(-SCALE, 2 * SCALE, SCALE / 4),
    ];
    let out = to_rgb8(&data);
    assert_eq!(out, vec![255u8, 128, 0, 0, 255, 128]);
}

#[test]
fn color_from_rgb_rescales() {
    let c = Color::from_rgb(255, 0, 51);
    assert_eq!(c, Vec3::new(SCALE, 0, 13107));
}

#[test]
fn pinhole_camera_is_deterministic() {
    let cam = Camera::new(v(0, 0, 0), v(0, 0, -1), v(0, 1, 0), SCALE, SCALE, 0);
    let mut rng1 = Rng::new(1);
    let mut rng2 = Rng::new(999);
    let a = cam.get_ray(SCALE / 2, SCALE / 2, &mut rng1);
    let b = cam.get_ray(SCALE / 2, SCALE / 2, &mut rng2);
    assert_eq!(a, b);
    assert_eq!(a.origin, v(0, 0, 0));
    assert_eq!(a.dir, v(0, 0, -1));
}

fn black_scene() -> Scene {
    let items = vec![Hitable::Sphere(Sphere::new(v(0, 0, 0), SCALE, 0))];
    Scene {
        width: 8,
        height: 4,
        objects: BVHNode::from_items(items),
        camera: Camera::new(v(0, 0, 2), v(0, 0, 0), v(0, 1, 0), SCALE, 2 * SCALE, 0),
        samples: 2,
        bounces: 4,
        show_bg: true,
        background: Background::Gradient(Gradient {
            a: black(),
            b: black(),
        }),
        materials: vec![Material::Light(Light::new(Texture::Solid(Solid::new(
            black(),
        ))))],
    }
}

#[test]
fn absorptive_scene_renders_black() {
    // zero emission, full absorption, black background: an all-zero image
    let scene = black_scene();
    let data = scene.render_seeded(7);
    assert_eq!(data.len(), 8 * 4);
    for c in data {
        assert_eq!(c, black());
    }
}

#[test]
fn surrounding_light_renders_its_radiance() {
    // the camera sits inside a uniformly emissive sphere: every sample
    // returns exactly the emitted radiance
    let emitted = Vec3::new(SCALE / 2, SCALE / 4, SCALE / 8);
    let items = vec![Hitable::Sphere(Sphere::new(v(0, 0, 0), 50 * SCALE, 0))];
    let scene = Scene {
        width: 6,
        height: 3,
        objects: BVHNode::from_items(items),
        camera: Camera::new(v(0, 0, 0), v(0, 0, -1), v(0, 1, 0), SCALE, 2 * SCALE, 0),
        samples: 4,
        bounces: 4,
        show_bg: false,
        background: Background::Gradient(Gradient {
            a: black(),
            b: black(),
        }),
        materials: vec![Material::Light(Light::new(Texture::Solid(Solid::new(
            emitted,
        ))))],
    };
    let data = scene.render_seeded(3);
    assert_eq!(data.len(), 6 * 3);
    for c in data {
        assert_eq!(c, emitted);
    }
}

fn two_sphere_scene() -> Scene {
    let items = vec![
        Hitable::Sphere(Sphere::new(v(0, 0, 0), SCALE / 2, 0)),
        Hitable::Sphere(Sphere::new(
            Vec3::new(0, -100 * SCALE - SCALE / 2, 0),
            100 * SCALE,
            1,
        )),
    ];
    Scene {
        width: 200,
        height: 100,
        objects: BVHNode::from_items(items),
        camera: Camera::new(v(0, 0, 2), v(0, 0, 0), v(0, 1, 0), SCALE, 2 * SCALE, 0),
        samples: 2,
        bounces: 10,
        show_bg: true,
        background: Background::Gradient(Gradient {
            a: Vec3::from_scalar(SCALE),
            b: Vec3::new(SCALE / 2, 45875, SCALE),
        }),
        materials: vec![
            Material::Diffuse(Diffuse::new(Texture::Solid(Solid::new(grey())))),
            Material::Diffuse(Diffuse::new(Texture::Solid(Solid::new(Vec3::new(
                SCALE / 2,
                SCALE / 2,
                13107,
            ))))),
        ],
    }
}

fn mean_channel(data: &[Vec3]) -> i64 {
    let mut sum: i128 = 0;
    for c in data {
        sum += (c.x + c.y + c.z) as i128;
    }
    (sum / (3 * data.len() as i128)) as i64
}

#[test]
fn pixel_seeding_is_schedule_independent() {
    // computing pixels in any order reproduces the sequential driver's
    // image, because every pixel's generator depends only on (seed, x, y)
    let scene = black_scene();
    let sequential = scene.render_seeded(11);
    let mut reversed: Vec<Color> = Vec::new();
    let mut row = scene.height;
    while row > 0 {
        row -= 1;
        let y = scene.height - 1 - row;
        for x in 0..scene.width {
            reversed.push(scene.render_pixel(x, y, 11));
        }
    }
    let mut rows: Vec<Vec<Color>> = Vec::new();
    for chunk in reversed.chunks(scene.width) {
        rows.push(chunk.to_vec());
    }
    rows.reverse();
    let reordered: Vec<Color> = rows.into_iter().flatten().collect();
    assert_eq!(sequential, reordered);
}

#[test]
fn end_to_end_scene_is_stable() {
    // a diffuse sphere over a diffuse ground: the image is not black, every
    // channel stays in the unit range, and renders from different seeds
    // agree in their mean brightness
    let scene = two_sphere_scene();
    let a = scene.render_seeded(1);
    assert_eq!(a.len(), 200 * 100);
    let mut nonzero = 0;
    for c in &a {
        assert!(0 <= c.x && c.x <= SCALE);
        assert!(0 <= c.y && c.y <= SCALE);
        assert!(0 <= c.z && c.z <= SCALE);
        if c.x > 0 || c.y > 0 || c.z > 0 {
            nonzero += 1;
        }
    }
    assert!(nonzero > 100 * 100);
    let b = scene.render_seeded(987654321);
    let ma = mean_channel(&a);
    let mb = mean_channel(&b);
    assert!((ma - mb).abs() < SCALE / 16);
    // the same seed reproduces the image exactly
    let c = scene.render_seeded(1);
    assert_eq!(a, c);
}
