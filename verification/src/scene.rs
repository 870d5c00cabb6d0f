//! The scene, the backgrounds, the path-tracing integrator and the render
//! driver.
//!
//! `color` is the light-transport integrator, written as a loop carrying an
//! accumulated radiance and an attenuation product (the recursion of the
//! textbook formulation made iterative).  `render` walks the image row by
//! row, top first, seeding an independent generator per pixel, so any
//! per-pixel scheduler that uses the same seeds produces the same image.

use vstd::prelude::*;

use crate::camera::Camera;
use crate::fx::{
    absi, fx_add, fx_clamp_unit, fx_div, fx_mul, fx_sqrt, fxs_add, fxs_div, fxs_mul, fxs_sqrt,
    fxs_sub, clamp01s, lemma_fxs_sqrt_nonneg, FX_INF, FX_ONE, SCALE,
};
use crate::hitable::{node_hit_specd, node_mat_in, node_rng_free, node_wf, BVHNode};
use crate::material::{mat_wf, Material};
use crate::ray::Ray;
use crate::rng::{entropy_u64, Rng};
use crate::texture::{tex_wf, texture_values, Texture};
use crate::trig::{asins, atan2s, fx_asin, fx_atan2, FX_PI};
use crate::vec3::{normalizes, vs_add, vs_div_s, vs_mul_s, Vec3};

verus! {

/// Colours are vectors of three linear-light channels.
pub type Color = Vec3;

/// The window floor for secondary rays, suppressing self-intersection
/// ("shadow acne"); about 0.001.
pub const HIT_EPS: i64 = 66;

/// 0.5 in raw units.
pub const FX_HALF: i64 = 32768;

/// A vertical colour gradient keyed by the ray's direction.
#[derive(Debug, Clone)]
pub struct Gradient {
    pub a: Color,
    pub b: Color,
}

/// What an escaping ray sees.
#[derive(Debug)]
pub enum Background {
    Gradient(Gradient),
    Texture(Texture),
}

/// Validity of a background.
pub open spec fn bg_wf(bg: Background) -> bool {
    match bg {
        Background::Gradient(_) => true,
        Background::Texture(t) => tex_wf(t),
    }
}

/// The colour a background yields for a ray: a vertical blend for the
/// gradient, an environment lookup by spherical direction for a texture.
/// (Opaque: its definition runs through the trigonometric model, so the one
/// proof that unfolds it reveals it explicitly.)
#[verifier::opaque]
pub open spec fn bg_colors(bg: Background, r: Ray) -> Color {
    match bg {
        Background::Gradient(g) => {
            let t = fxs_mul(fxs_add(normalizes(r.dir).y as int, SCALE as int), FX_HALF as int);
            vs_add(vs_mul_s(g.a, fxs_sub(SCALE as int, t)), vs_mul_s(g.b, t))
        },
        Background::Texture(tex) => {
            let unit = normalizes(r.dir);
            let phi = atan2s(unit.z as int, unit.x as int);
            let ys = clamp01s(unit.y as int + SCALE as int) - SCALE as int;
            let theta = asins(ys);
            let u = fxs_div(fxs_add(SCALE as int, fxs_div(phi, FX_PI as int)), 2 * SCALE as int);
            let v = fxs_add(fxs_div(theta, FX_PI as int), FX_HALF as int);
            texture_values(tex, u, v, Vec3 { x: 0i64, y: 0i64, z: 0i64 })
        },
    }
}

/// A background that contributes nothing: a gradient between two blacks, or
/// a solid black environment.
pub open spec fn bg_black(bg: Background) -> bool {
    match bg {
        Background::Gradient(g) => g.a == (Vec3 { x: 0i64, y: 0i64, z: 0i64 }) && g.b == (Vec3 {
            x: 0i64,
            y: 0i64,
            z: 0i64,
        }),
        Background::Texture(t) => (t matches Texture::Solid(s) && s.color == (Vec3 {
            x: 0i64,
            y: 0i64,
            z: 0i64,
        })),
    }
}

/// Every material is a zero-emission light: it absorbs every ray and emits
/// nothing.
pub open spec fn mats_all_dark(mats: Seq<Material>) -> bool {
    forall|i: int|
        0 <= i < mats.len() ==> ((#[trigger] mats[i]) matches Material::Light(l) && l.texture
            matches Texture::Solid(s) && s.color == (Vec3 { x: 0i64, y: 0i64, z: 0i64 }))
}

impl Background {
    /// The colour an escaping ray sees.
    pub fn get_color(&self, r: Ray) -> (c: Color)
        requires
            bg_wf(*self),
        ensures
            c == bg_colors(*self, r),
            bg_black(*self) ==> c == (Vec3 { x: 0i64, y: 0i64, z: 0i64 }),
    {
        proof {
            reveal(bg_colors);
        }
        match self {
            Background::Gradient(g) => {
                let t = fx_mul(fx_add(r.dir.normalize().y, SCALE), FX_HALF);
                let res = g.a.mul_s(crate::fx::fx_sub(SCALE, t)).add(g.b.mul_s(t));
                proof {
                    if bg_black(*self) {
                        crate::vec3::lemma_vs_mul_zero(g.a, fxs_sub(SCALE as int, t as int));
                        crate::vec3::lemma_vs_mul_zero(g.b, t as int);
                        assert(res == (Vec3 { x: 0i64, y: 0i64, z: 0i64 }));
                    }
                }
                res
            },
            Background::Texture(tex) => {
                let unit = r.dir.normalize();
                let phi = fx_atan2(unit.z, unit.x);
                let ys = fx_clamp_unit(fx_add(unit.y, SCALE)) - SCALE;
                let theta = fx_asin(ys);
                let u = fx_div(fx_add(SCALE, fx_div(phi, FX_PI)), 2 * SCALE);
                let v = fx_add(fx_div(theta, FX_PI), FX_HALF);
                let res = tex.value(u, v, Vec3::zero());
                proof {
                    if bg_black(*self) {
                        assert(res == (Vec3 { x: 0i64, y: 0i64, z: 0i64 }));
                    }
                }
                res
            },
        }
    }
}

impl Vec3 {
    /// A colour from 8-bit channels, each rescaled into `[0, 1]`.
    pub fn from_rgb(r: u8, g: u8, b: u8) -> (c: Color)
        ensures
            c.x as int == (r as int * SCALE as int) / 255,
            c.y as int == (g as int * SCALE as int) / 255,
            c.z as int == (b as int * SCALE as int) / 255,
    {
        proof {
            assert((r as int * SCALE as int) / 255 <= (255 * SCALE as int) / 255 && (g as int
                * SCALE as int) / 255 <= (255 * SCALE as int) / 255 && (b as int * SCALE as int)
                / 255 <= (255 * SCALE as int) / 255) by (nonlinear_arith)
                requires
                    r <= 255,
                    g <= 255,
                    b <= 255,
            ;
        }
        Vec3 {
            x: ((r as u64 * (SCALE as u64)) / 255) as i64,
            y: ((g as u64 * (SCALE as u64)) / 255) as i64,
            z: ((b as u64 * (SCALE as u64)) / 255) as i64,
        }
    }
}

/// The radiance arriving along a ray: handle the primary event, then walk
/// scatter events in a loop, accumulating emitted light weighted by the
/// attenuation product, until the ray is absorbed, escapes to the
/// background, or the bounce budget runs out.  A scene of zero-emission
/// absorbers over a black background yields exactly black whatever the
/// sampling draws; and on randomness-free worlds the primary event is
/// pinned: a miss yields the background colour (or black when suppressed),
/// and a light yields exactly its emitted radiance.
#[verifier::rlimit(100)]
#[verifier::spinoff_prover]
pub fn color(
    r: Ray,
    world: &BVHNode,
    bg: &Background,
    show_bg: bool,
    max_bounces: u16,
    materials: &Vec<Material>,
    rng: &mut Rng,
) -> (c: Color)
    requires
        node_wf(*world),
        bg_wf(*bg),
        forall|i: int| 0 <= i < materials@.len() ==> mat_wf(#[trigger] materials@[i]),
        forall|id: usize| node_mat_in(*world, id) ==> (id as int) < materials@.len(),
    ensures
        mats_all_dark(materials@) && bg_black(*bg) ==> c == (Vec3 { x: 0i64, y: 0i64, z: 0i64 }),
        node_rng_free(*world) ==> {
            let first = node_hit_specd(*world, r, HIT_EPS as int, FX_INF as int);
            &&& (first is None && show_bg ==> c == bg_colors(*bg, r))
            &&& (first is None && !show_bg ==> c == (Vec3 { x: 0i64, y: 0i64, z: 0i64 }))
            &&& (first matches Some(h) ==> (h.material as int) < materials@.len())
            &&& (first matches Some(h) ==> (materials@[h.material as int]
                matches Material::Light(l) ==> c == texture_values(
                l.texture,
                h.u as int,
                h.v as int,
                h.point,
            )))
        },
{
    let ghost dark = mats_all_dark(materials@) && bg_black(*bg);
    let ghost det = node_rng_free(*world);
    // the primary event alone decides the deterministic cases
    let first_hit = match world.hit(r, HIT_EPS, FX_INF, rng) {
        None => {
            proof {
                if det {
                    assert(node_hit_specd(*world, r, HIT_EPS as int, FX_INF as int) is None);
                }
            }
            if show_bg {
                let bgc = bg.get_color(r);
                proof {
                    assert(bgc == bg_colors(*bg, r));
                }
                return bgc;
            } else {
                return Vec3::zero();
            }
        },
        Some(h) => h,
    };
    let emitted = materials[first_hit.material].emit(
        first_hit.u,
        first_hit.v,
        first_hit.point,
    );
    proof {
        if det {
            match materials@[first_hit.material as int] {
                Material::Light(l) => {
                    assert(emitted == texture_values(
                        l.texture,
                        first_hit.u as int,
                        first_hit.v as int,
                        first_hit.point,
                    ));
                },
                _ => {},
            }
        }
    }
    let mut acc = emitted;
    let mut mult = Vec3::from_scalar(FX_ONE);
    let mut cur = r;
    let mut depth: u16 = 0;
    if depth >= max_bounces {
        return acc;
    }
    match materials[first_hit.material].scatter(
        r,
        first_hit.normal,
        first_hit.point,
        first_hit.u,
        first_hit.v,
        rng,
    ) {
        Some((attenuation, scattered)) => {
            mult = mult.mul(attenuation);
            cur = scattered;
            depth = 1;
        },
        None => {
            return acc;
        },
    }
    proof {
        if dark {
            assert(emitted == (Vec3 { x: 0i64, y: 0i64, z: 0i64 }));
        }
        if det {
            // the primary hit scattered, so it was neither a light nor a
            // miss: the deterministic clauses hold of any loop result
            match materials@[first_hit.material as int] {
                Material::Light(_) => {
                    assert(false);
                },
                _ => {},
            }
        }
    }
    bounce_loop(world, bg, show_bg, max_bounces, materials, cur, acc, mult, depth, rng)
}

/// The bounce walk behind `color`, from the first scattered ray on: add
/// each event's emitted light weighted by the running attenuation product
/// until absorption, escape or the bounce budget.  In a scene of
/// zero-emission absorbers over a black background, a black accumulator
/// stays black.
#[verifier::rlimit(100)]
#[verifier::spinoff_prover]
fn bounce_loop(
    world: &BVHNode,
    bg: &Background,
    show_bg: bool,
    max_bounces: u16,
    materials: &Vec<Material>,
    start: Ray,
    acc0: Color,
    mult0: Color,
    depth0: u16,
    rng: &mut Rng,
) -> (c: Color)
    requires
        node_wf(*world),
        bg_wf(*bg),
        forall|i: int| 0 <= i < materials@.len() ==> mat_wf(#[trigger] materials@[i]),
        forall|id: usize| node_mat_in(*world, id) ==> (id as int) < materials@.len(),
        1 <= depth0 <= max_bounces,
    ensures
        mats_all_dark(materials@) && bg_black(*bg) && acc0 == (Vec3 { x: 0i64, y: 0i64, z: 0i64 })
            ==> c == (Vec3 { x: 0i64, y: 0i64, z: 0i64 }),
{
    let ghost dark = mats_all_dark(materials@) && bg_black(*bg) && acc0 == (Vec3 {
        x: 0i64,
        y: 0i64,
        z: 0i64,
    });
    let mut acc = acc0;
    let mut mult = mult0;
    let mut cur = start;
    let mut depth = depth0;
    loop
        invariant
            node_wf(*world),
            bg_wf(*bg),
            forall|i: int| 0 <= i < materials@.len() ==> mat_wf(#[trigger] materials@[i]),
            forall|id: usize| node_mat_in(*world, id) ==> (id as int) < materials@.len(),
            depth <= max_bounces,
            dark == (mats_all_dark(materials@) && bg_black(*bg) && acc0 == (Vec3 {
                x: 0i64,
                y: 0i64,
                z: 0i64,
            })),
            dark ==> acc == (Vec3 { x: 0i64, y: 0i64, z: 0i64 }),
        decreases max_bounces as int - depth as int,
    {
        match world.hit(cur, HIT_EPS, FX_INF, rng) {
            Some(hit) => {
                let emitted = materials[hit.material].emit(hit.u, hit.v, hit.point);
                proof {
                    if dark {
                        assert(emitted == (Vec3 { x: 0i64, y: 0i64, z: 0i64 }));
                        crate::vec3::lemma_vs_mul_zero(mult, 0);
                    }
                }
                acc = acc.add(mult.mul(emitted));
                if depth < max_bounces {
                    match materials[hit.material].scatter(
                        cur,
                        hit.normal,
                        hit.point,
                        hit.u,
                        hit.v,
                        rng,
                    ) {
                        Some((attenuation, scattered)) => {
                            mult = mult.mul(attenuation);
                            cur = scattered;
                            depth = depth + 1;
                        },
                        None => {
                            return acc;
                        },
                    }
                } else {
                    return acc;
                }
            },
            None => {
                if show_bg || depth > 0 {
                    let bgc = bg.get_color(cur);
                    proof {
                        if dark {
                            crate::vec3::lemma_vs_mul_zero(mult, 0);
                        }
                    }
                    acc = acc.add(mult.mul(bgc));
                }
                return acc;
            },
        }
    }
}

/// A complete render job: the accelerated world, the camera, the image and
/// sampling parameters, the background, and the material table the
/// primitives' indices point into.
#[derive(Debug)]
pub struct Scene {
    pub width: usize,
    pub height: usize,
    pub objects: BVHNode,
    pub camera: Camera,
    pub samples: u16,
    pub bounces: u16,
    pub show_bg: bool,
    pub background: Background,
    pub materials: Vec<Material>,
}

/// Validity of a scene: structures are valid, every material index in the
/// world points into the material table, and the image dimensions are
/// positive and moderate.
pub open spec fn scene_wf(s: Scene) -> bool {
    &&& node_wf(s.objects)
    &&& bg_wf(s.background)
    &&& (forall|i: int| 0 <= i < s.materials@.len() ==> mat_wf(#[trigger] s.materials@[i]))
    &&& (forall|id: usize| node_mat_in(s.objects, id) ==> (id as int) < s.materials@.len())
    &&& 1 <= s.width <= 0x4000
    &&& 1 <= s.height <= 0x4000
    &&& s.samples >= 1
}

/// The whole scene renders black: dark materials and a black background.
pub open spec fn scene_blackout(s: Scene) -> bool {
    mats_all_dark(s.materials@) && bg_black(s.background)
}

/// A uniformly glowing enclosure: a randomness-free world whose every
/// material is the same moderate-radiance light, and which catches every
/// ray.  Every sample then returns exactly the emitted radiance, whatever
/// the generator draws.
pub open spec fn scene_glows(s: Scene, lc: Color) -> bool {
    &&& node_rng_free(s.objects)
    &&& s.materials@.len() >= 1
    &&& (forall|i: int|
        0 <= i < s.materials@.len() ==> #[trigger] s.materials@[i] == Material::Light(
            crate::material::Light { texture: Texture::Solid(crate::texture::Solid { color: lc }) },
        ))
    &&& (forall|ray: Ray| #[trigger] node_hit_specd(
        s.objects,
        ray,
        HIT_EPS as int,
        FX_INF as int,
    ) is Some)
    &&& 0 <= lc.x <= SCALE * SCALE
    &&& 0 <= lc.y <= SCALE * SCALE
    &&& 0 <= lc.z <= SCALE * SCALE
}

/// What the render driver pins about the colour delivered for the pixel at
/// `(x, y)`: a blacked-out scene yields black, and a uniformly glowing
/// enclosure yields exactly its radiance.  The buffer layout contract names
/// each slot's pixel through this predicate.
pub open spec fn pixel_pinned(s: Scene, seed: u64, x: int, y: int, c: Color) -> bool {
    &&& (scene_blackout(s) ==> c == (Vec3 { x: 0i64, y: 0i64, z: 0i64 }))
    &&& (forall|lc: Color| #[trigger] scene_glows(s, lc) ==> c == lc)
}

/// The buffer layout: it is row-major with row 0 the visual top, so slot
/// `j` answers for the pixel at column `j mod width` of camera row
/// `height - 1 - j div width`, and holds whatever `pixel_pinned` promises
/// for that pixel.
pub open spec fn buffer_pinned(s: Scene, seed: u64, data: Seq<Color>) -> bool {
    forall|j: int|
        0 <= j < data.len() ==> pixel_pinned(
            s,
            seed,
            j % (s.width as int),
            s.height - 1 - j / (s.width as int),
            #[trigger] data[j],
        )
}

/// One step of the uniform-glow sum: adding one more copy of `lc` to a sum
/// of `k` copies gives `k + 1` copies, without saturating.
proof fn glow_sum_step(k: int, before: Color, lc: Color, after: Color)
    requires
        0 <= k < 0x1_0000,
        0 <= lc.x <= SCALE * SCALE && 0 <= lc.y <= SCALE * SCALE && 0 <= lc.z <= SCALE * SCALE,
        before.x as int == k * lc.x as int && before.y as int == k * lc.y as int
            && before.z as int == k * lc.z as int,
        after == vs_add(before, lc),
    ensures
        after.x as int == (k + 1) * lc.x as int && after.y as int == (k + 1) * lc.y as int
            && after.z as int == (k + 1) * lc.z as int,
{
    assert((k + 1) * lc.x as int == k * lc.x as int + lc.x as int && 0 <= (k + 1) * lc.x as int
        <= 0x1_0000_0000_0000int && (k + 1) * lc.y as int == k * lc.y as int + lc.y as int && 0
        <= (k + 1) * lc.y as int <= 0x1_0000_0000_0000int && (k + 1) * lc.z as int == k
        * lc.z as int + lc.z as int && 0 <= (k + 1) * lc.z as int <= 0x1_0000_0000_0000int)
        by (nonlinear_arith)
        requires
            0 <= k < 0x1_0000,
            0 <= lc.x <= SCALE * SCALE && 0 <= lc.y <= SCALE * SCALE && 0 <= lc.z <= SCALE
                * SCALE,
            SCALE == 65536i64,
    ;
}

/// Averaging `n` copies of `lc` gives back exactly `lc`.
proof fn glow_sum_average(n: int, total: Color, lc: Color, avg: Color)
    requires
        1 <= n < 0x1_0000,
        0 <= lc.x <= SCALE * SCALE && 0 <= lc.y <= SCALE * SCALE && 0 <= lc.z <= SCALE * SCALE,
        total.x as int == n * lc.x as int && total.y as int == n * lc.y as int && total.z as int
            == n * lc.z as int,
        avg == vs_div_s(total, n * SCALE as int),
    ensures
        avg == lc,
{
    glow_channel_average(n, lc.x as int);
    glow_channel_average(n, lc.y as int);
    glow_channel_average(n, lc.z as int);
}

/// One channel of the average: `(n * v) / n` in fixed point is `v`.
proof fn glow_channel_average(n: int, v: int)
    requires
        1 <= n < 0x1_0000,
        0 <= v <= SCALE * SCALE,
    ensures
        crate::fx::fxs_div(n * v, n * SCALE as int) == v,
{
    let s = SCALE as int;
    assert(n * s > 0 && n * v >= 0 && (n * v) * s == v * (n * s) && absi((n * v) * s) == (n * v)
        * s && (v * (n * s)) / (n * s) == v) by (nonlinear_arith)
        requires
            1 <= n < 0x1_0000,
            0 <= v <= s * s,
            s == 65536,
    ;
    assert(0 <= v <= i64::MAX as int) by (nonlinear_arith)
        requires
            0 <= v <= s * s,
            s == 65536,
    ;
}

impl Scene {
    /// Average `samples` radiance estimates through one pixel, jittering
    /// each sample inside the pixel, with a generator seeded from the pixel
    /// coordinates so every pixel is independent.
    pub fn render_pixel(&self, x: usize, y: usize, seed: u64) -> (c: Color)
        requires
            scene_wf(*self),
            x < self.width,
            y < self.height,
        ensures
            scene_blackout(*self) ==> c == (Vec3 { x: 0i64, y: 0i64, z: 0i64 }),
            pixel_pinned(*self, seed, x as int, y as int, c),
    {
        let mut rng = Rng::for_pixel(seed, x as u64, y as u64);
        let mut col = Vec3::zero();
        let mut s: u16 = 0;
        while s < self.samples
            invariant
                scene_wf(*self),
                x < self.width,
                y < self.height,
                s <= self.samples,
                scene_blackout(*self) ==> col == (Vec3 { x: 0i64, y: 0i64, z: 0i64 }),
                forall|lc: Color| #[trigger] scene_glows(*self, lc) ==> col.x as int == s as int
                    * lc.x as int && col.y as int == s as int * lc.y as int && col.z as int
                    == s as int * lc.z as int,
            decreases self.samples as int - s as int,
        {
            let jx = rng.next_unit();
            let jy = rng.next_unit();
            let h = fx_div(fx_add((x as i64) * SCALE, jx), (self.width as i64) * SCALE);
            let v = fx_div(fx_add((y as i64) * SCALE, jy), (self.height as i64) * SCALE);
            let ray = self.camera.get_ray(h, v, &mut rng);
            let sample = color(
                ray,
                &self.objects,
                &self.background,
                self.show_bg,
                self.bounces,
                &self.materials,
                &mut rng,
            );
            let ghost old_col = col;
            let ghost old_s = s;
            col = col.add(sample);
            s = s + 1;
            proof {
                assert forall|lc: Color| #[trigger] scene_glows(*self, lc) implies col.x as int
                    == s as int * lc.x as int && col.y as int == s as int * lc.y as int
                    && col.z as int == s as int * lc.z as int by {
                    // every sample of a glowing enclosure is exactly lc
                    assert(node_hit_specd(self.objects, ray, HIT_EPS as int, FX_INF as int)
                        is Some);
                    assert(sample == lc);
                    glow_sum_step(old_s as int, old_col, lc, col);
                }
            }
        }
        let result = col.div_s((self.samples as i64) * SCALE);
        proof {
            assert forall|lc: Color| #[trigger] scene_glows(*self, lc) implies result == lc by {
                glow_sum_average(self.samples as int, col, lc, result);
            }
        }
        result
    }

    /// Render the image with pixel generators derived from the given seed:
    /// a flat row-major buffer of linear-light colours, one per pixel, the
    /// top row first.  The same seed always yields the same image, however
    /// the pixels are scheduled.
    pub fn render_seeded(&self, seed: u64) -> (data: Vec<Color>)
        requires
            scene_wf(*self),
        ensures
            data@.len() == self.width * self.height,
            scene_blackout(*self) ==> forall|i: int|
                0 <= i < data@.len() ==> data@[i] == (Vec3 { x: 0i64, y: 0i64, z: 0i64 }),
            buffer_pinned(*self, seed, data@),
    {
        let mut data: Vec<Color> = Vec::new();
        let mut row: usize = 0;
        proof {
            assert(self.width * self.height <= 0x4000 * 0x4000) by (nonlinear_arith)
                requires
                    self.width <= 0x4000,
                    self.height <= 0x4000,
            ;
        }
        while row < self.height
            invariant
                scene_wf(*self),
                row <= self.height,
                data@.len() == row * self.width,
                scene_blackout(*self) ==> forall|i: int|
                    0 <= i < data@.len() ==> data@[i] == (Vec3 { x: 0i64, y: 0i64, z: 0i64 }),
                buffer_pinned(*self, seed, data@),
            decreases self.height - row,
    {
            let y = self.height - 1 - row;
            let mut x: usize = 0;
            while x < self.width
                invariant
                    scene_wf(*self),
                    row < self.height,
                    y == self.height - 1 - row,
                    x <= self.width,
                    data@.len() == row * self.width + x,
                    scene_blackout(*self) ==> forall|i: int|
                        0 <= i < data@.len() ==> data@[i] == (Vec3 { x: 0i64, y: 0i64, z: 0i64 }),
                    buffer_pinned(*self, seed, data@),
                decreases self.width - x,
            {
                proof {
                    assert(row * self.width + self.width <= (self.height - 1) * self.width
                        + self.width) by (nonlinear_arith)
                        requires
                            row < self.height,
                            self.width >= 1,
                    ;
                    assert((self.height - 1) * self.width + self.width == self.height
                        * self.width) by (nonlinear_arith);
                    assert(self.height * self.width <= 0x4000 * 0x4000) by (nonlinear_arith)
                        requires
                            self.width <= 0x4000,
                            self.height <= 0x4000,
                    ;
                }
                let c = self.render_pixel(x, y, seed);
                let ghost j0 = data@.len() as int;
                data.push(c);
                proof {
                    // the slot just filled answers for pixel (x, height-1-row)
                    vstd::arithmetic::div_mod::lemma_fundamental_div_mod_converse(
                        j0,
                        self.width as int,
                        row as int,
                        x as int,
                    );
                    assert(j0 % (self.width as int) == x as int && j0 / (self.width as int)
                        == row as int);
                    assert(data@[j0] == c);
                }
                x = x + 1;
            }
            row = row + 1;
            proof {
                assert(row * self.width == (row - 1) * self.width + self.width)
                    by (nonlinear_arith);
            }
        }
        proof {
            assert(self.height * self.width == self.width * self.height) by (nonlinear_arith);
        }
        data
    }

    /// Render with a fresh entropy seed.
    pub fn render(&self) -> (data: Vec<Color>)
        requires
            scene_wf(*self),
        ensures
            data@.len() == self.width * self.height,
            scene_blackout(*self) ==> forall|i: int|
                0 <= i < data@.len() ==> data@[i] == (Vec3 { x: 0i64, y: 0i64, z: 0i64 }),
            exists|seed: u64| #[trigger] buffer_pinned(*self, seed, data@),
    {
        let seed = entropy_u64();
        let data = self.render_seeded(seed);
        proof {
            assert(buffer_pinned(*self, seed, data@));
        }
        data
    }

    /// Render and encode: the gamma-2 8-bit buffer ready for an image
    /// encoder, three bytes per pixel, top row first.
    pub fn render_rgb8(&self, seed: u64) -> (out: Vec<u8>)
        requires
            scene_wf(*self),
        ensures
            out@.len() == 3 * (self.width * self.height),
            scene_blackout(*self) ==> forall|i: int| 0 <= i < out@.len() ==> out@[i] == 0u8,
    {
        let data = self.render_seeded(seed);
        let out = to_rgb8(&data);
        proof {
            if scene_blackout(*self) {
                assert forall|i: int| 0 <= i < out@.len() implies out@[i] == 0u8 by {
                    let j = i / 3;
                    let rem = i % 3;
                    vstd::arithmetic::div_mod::lemma_fundamental_div_mod(i, 3);
                    assert(i == 3 * j + rem && 0 <= rem < 3);
                    assert(0 <= j < data@.len()) by (nonlinear_arith)
                        requires
                            i == 3 * j + rem,
                            0 <= rem < 3,
                            0 <= i,
                            i < 3 * data@.len(),
                    ;
                    assert(out@[3 * j] as int == gamma_byte(data@[j].x as int));
                    assert(data@[j] == (Vec3 { x: 0i64, y: 0i64, z: 0i64 }));
                    assert(gamma_byte(0) == 0);
                    if rem == 0 {
                        assert(out@[i] == out@[3 * j]);
                    } else if rem == 1 {
                        assert(out@[i] == out@[3 * j + 1]);
                    } else {
                        assert(out@[i] == out@[3 * j + 2]);
                    }
                }
            }
        }
        out
    }
}

/// One channel through gamma-2 encoding: clamp into `[0, 1]`, take the
/// square root, and quantize to a byte.
pub open spec fn gamma_byte(c: int) -> int {
    let s = fxs_sqrt(clamp01s(c));
    if s / 256 > 255 {
        255
    } else {
        s / 256
    }
}

/// Encode a linear-light buffer as gamma-2 bytes, three per colour, in
/// order.
#[verifier::rlimit(100)]
#[verifier::spinoff_prover]
pub fn to_rgb8(data: &Vec<Color>) -> (out: Vec<u8>)
    ensures
        out@.len() == 3 * data@.len(),
        forall|i: int|
            0 <= i < data@.len() ==> (#[trigger] out@[3 * i]) as int == gamma_byte(
                data@[i].x as int,
            ) && out@[3 * i + 1] as int == gamma_byte(data@[i].y as int) && out@[3 * i
                + 2] as int == gamma_byte(data@[i].z as int),
{
    let mut out: Vec<u8> = Vec::new();
    let mut i: usize = 0;
    while i < data.len()
        invariant
            i <= data@.len(),
            out@.len() == 3 * i,
            forall|j: int|
                0 <= j < i ==> (#[trigger] out@[3 * j]) as int == gamma_byte(data@[j].x as int)
                    && out@[3 * j + 1] as int == gamma_byte(data@[j].y as int) && out@[3 * j
                    + 2] as int == gamma_byte(data@[j].z as int),
        decreases data@.len() - i,
    {
        let ghost old_out = out@;
        let c = data[i];
        out.push(to_byte(c.x));
        out.push(to_byte(c.y));
        out.push(to_byte(c.z));
        proof {
            assert(out@[3 * (i as int)] as int == gamma_byte(data@[i as int].x as int));
            assert(out@[3 * (i as int) + 1] as int == gamma_byte(data@[i as int].y as int));
            assert(out@[3 * (i as int) + 2] as int == gamma_byte(data@[i as int].z as int));
            assert(forall|j: int| 0 <= j < 3 * i ==> out@[j] == old_out[j]);
            assert forall|j: int| 0 <= j < i implies (#[trigger] out@[3 * j]) == old_out[3 * j]
                && out@[3 * j + 1] == old_out[3 * j + 1] && out@[3 * j + 2] == old_out[3 * j
                + 2] by {
                assert(0 <= 3 * j && 3 * j + 2 < 3 * (i as int));
            }
        }
        i = i + 1;
    }
    out
}

/// One channel to a byte (see `gamma_byte`).
fn to_byte(c: i64) -> (b: u8)
    ensures
        b as int == gamma_byte(c as int),
{
    let cl = fx_clamp_unit(c);
    let s = fx_sqrt(cl);
    proof {
        lemma_fxs_sqrt_nonneg(cl as int);
    }
    let q = (s as u64) / 256;
    if q > 255 {
        255
    } else {
        q as u8
    }
}

} // verus!
