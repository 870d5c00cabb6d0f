//! Surface behaviour: scattering and emission.
//!
//! The material family is small and closed, so it is a tagged union.  A
//! scatter draws pseudo-random samples, so its contract states what holds of
//! every outcome (and pins the result exactly wherever no randomness enters,
//! such as a fuzz-free mirror or a light).

use vstd::prelude::*;

use crate::fx::{
    absi,
    fx_add, fx_div, fx_max, fx_min, fx_mul, fx_neg, fx_sub, fxs_add, fxs_div, fxs_mul, fxs_sub,
    lemma_mul_unit_bound, FX_ONE, SCALE,
};
use crate::ray::Ray;
use crate::rng::Rng;
use crate::texture::{tex_wf, texture_values, Texture};
use crate::vec3::{dots, normalizes, reflects, refracts, square_lens, vs_add, vs_mul_s, vs_neg, vs_sub, Vec3};

verus! {

/// Scatters by sampling a point near the unit normal; tints by its texture.
#[derive(Debug)]
pub struct Diffuse {
    pub texture: Texture,
}

/// Mirror reflection perturbed by `fuzz`; absorbs rays that would leave
/// into the surface.
#[derive(Debug, Clone)]
pub struct Specular {
    pub albedo: Vec3,
    pub fuzz: i64,
}

/// Glass-like: always scatters, choosing between reflection and refraction
/// with the Schlick probability.
#[derive(Debug, Clone)]
pub struct Dielectric {
    pub tint: Vec3,
    pub refractive_index: i64,
}

/// Pure emitter: never scatters.
#[derive(Debug)]
pub struct Light {
    pub texture: Texture,
}

/// Uniform phase function for participating media.
#[derive(Debug)]
pub struct Isotropic {
    pub texture: Texture,
}

#[derive(Debug)]
pub enum Material {
    Diffuse(Diffuse),
    Specular(Specular),
    Dielectric(Dielectric),
    Light(Light),
    Isotropic(Isotropic),
}

/// Validity of a material: its texture is valid, and a dielectric's
/// refractive index is physical (at least one).
pub open spec fn mat_wf(m: Material) -> bool {
    match m {
        Material::Diffuse(d) => tex_wf(d.texture),
        Material::Specular(_) => true,
        Material::Dielectric(d) => d.refractive_index >= FX_ONE,
        Material::Light(l) => tex_wf(l.texture),
        Material::Isotropic(i) => tex_wf(i.texture),
    }
}

/// The fifth power, as five saturating multiplications.
pub open spec fn pow5s(x: int) -> int {
    fxs_mul(fxs_mul(fxs_mul(fxs_mul(x, x), x), x), x)
}

/// The Schlick reflectance approximation:
/// `r0 + (1 - r0) * (1 - cos)^5` with `r0 = ((1 - n) / (1 + n))^2`.
pub open spec fn schlicks(cosine: int, refractive_index: int) -> int {
    let q = fxs_div(fxs_sub(SCALE as int, refractive_index), fxs_add(
        SCALE as int,
        refractive_index,
    ));
    let r0 = fxs_mul(q, q);
    fxs_add(r0, fxs_mul(fxs_sub(SCALE as int, r0), pow5s(fxs_sub(SCALE as int, cosine))))
}

/// What a material emits at a surface point: its texture's colour for a
/// light, black for everything else.
pub open spec fn emits(m: Material, u: int, v: int, p: Vec3) -> Vec3 {
    match m {
        Material::Light(l) => texture_values(l.texture, u, v, p),
        _ => Vec3 { x: 0i64, y: 0i64, z: 0i64 },
    }
}

/// The outward normal and index ratio a dielectric uses, by which side of
/// the surface the ray arrives on.
pub open spec fn dielectric_outward_ratio(refractive_index: int, r: Ray, normal: Vec3) -> (
    Vec3,
    int,
) {
    if dots(r.dir, normal) > 0 {
        (vs_neg(normal), refractive_index)
    } else {
        (normal, fxs_div(SCALE as int, refractive_index))
    }
}

/// The Schlick reflectance is a probability: it lies in `[0, 1]` for every
/// physical refractive index (at least one) and every incidence cosine in
/// `[0, 1]`.
pub proof fn lemma_schlick_unit(cosine: int, refractive_index: int)
    requires
        0 <= cosine <= SCALE as int,
        FX_ONE as int <= refractive_index <= i64::MAX as int,
    ensures
        0 <= schlicks(cosine, refractive_index) <= SCALE as int,
{
    let s = SCALE as int;
    let num = fxs_sub(s, refractive_index);
    let den = fxs_add(s, refractive_index);
    assert(-(i64::MAX as int) <= num <= 0);
    assert(2 * s <= den <= i64::MAX as int);
    assert(-num < den);
    let q = fxs_div(num, den);
    assert(-s < q <= 0) by {
        assert(absi(num * s) == absi(num) * s) by (nonlinear_arith)
            requires
                s > 0,
        ;
        assert(absi(num) * s <= (den - 1) * s) by (nonlinear_arith)
            requires
                absi(num) <= den - 1,
                s > 0,
        ;
        assert((absi(num) * s) / den < s) by (nonlinear_arith)
            requires
                0 <= absi(num) * s <= (den - 1) * s,
                den >= 2,
                s > 0,
        ;
        assert(0 <= (absi(num) * s) / den) by (nonlinear_arith)
            requires
                0 <= absi(num) * s,
                den >= 2,
        ;
    }
    let r0 = fxs_mul(q, q);
    assert(0 <= r0 < s) by {
        assert(0 <= q * q <= (s - 1) * (s - 1)) by (nonlinear_arith)
            requires
                -s < q <= 0,
        ;
        assert(absi(q * q) == q * q);
        assert((q * q) / s <= ((s - 1) * (s - 1)) / s && 0 <= (q * q) / s) by (nonlinear_arith)
            requires
                0 <= q * q <= (s - 1) * (s - 1),
                s > 0,
        ;
        assert(((s - 1) * (s - 1)) / s < s) by (nonlinear_arith)
            requires
                s == 65536,
        ;
    }
    let c1 = fxs_sub(s, cosine);
    assert(0 <= c1 <= s);
    lemma_mul_unit_bound(c1, c1);
    let p2 = fxs_mul(c1, c1);
    lemma_mul_unit_bound(p2, c1);
    let p3 = fxs_mul(p2, c1);
    lemma_mul_unit_bound(p3, c1);
    let p4 = fxs_mul(p3, c1);
    lemma_mul_unit_bound(p4, c1);
    let p5 = fxs_mul(p4, c1);
    assert(0 <= p5 <= s);
    let rest = fxs_sub(s, r0);
    assert(0 < rest <= s);
    lemma_mul_unit_bound(p5, rest);
    assert(0 <= fxs_mul(rest, p5) <= rest);
}

/// The Schlick reflectance probability.
pub fn schlick(cosine: i64, refractive_index: i64) -> (r: i64)
    requires
        0 <= cosine <= FX_ONE,
        refractive_index >= FX_ONE,
    ensures
        r as int == schlicks(cosine as int, refractive_index as int),
        0 <= r <= FX_ONE,
{
    proof {
        lemma_schlick_unit(cosine as int, refractive_index as int);
    }
    let q = fx_div(fx_sub(SCALE, refractive_index), fx_add(SCALE, refractive_index));
    let r0 = fx_mul(q, q);
    let c1 = fx_sub(SCALE, cosine);
    let p5 = fx_mul(fx_mul(fx_mul(fx_mul(c1, c1), c1), c1), c1);
    fx_add(r0, fx_mul(fx_sub(SCALE, r0), p5))
}

impl Diffuse {
    pub fn new(texture: Texture) -> (r: Diffuse)
        ensures
            r.texture == texture,
    {
        Diffuse { texture }
    }
}

impl Specular {
    pub fn new(albedo: Vec3, fuzz: i64) -> (r: Specular)
        ensures
            r == (Specular { albedo, fuzz }),
    {
        Specular { albedo, fuzz }
    }
}

impl Dielectric {
    pub fn new(tint: Vec3, refractive_index: i64) -> (r: Dielectric)
        ensures
            r == (Dielectric { tint, refractive_index }),
    {
        Dielectric { tint, refractive_index }
    }
}

impl Light {
    pub fn new(texture: Texture) -> (r: Light)
        ensures
            r.texture == texture,
    {
        Light { texture }
    }
}

impl Isotropic {
    pub fn new(texture: Texture) -> (r: Isotropic)
        ensures
            r.texture == texture,
    {
        Isotropic { texture }
    }
}

impl Material {
    /// How a surface hit continues: `None` when the ray is absorbed, or the
    /// attenuation colour and the scattered ray.  Scattered rays always leave
    /// from the hit point.  Lights always absorb; diffuse, isotropic and
    /// dielectric surfaces always scatter; a fuzz-free specular surface is an
    /// exact mirror.
    pub fn scatter(
        &self,
        r: Ray,
        normal: Vec3,
        point: Vec3,
        u: i64,
        v: i64,
        rng: &mut Rng,
    ) -> (res: Option<(Vec3, Ray)>)
        requires
            mat_wf(*self),
        ensures
            self matches Material::Light(_) ==> res is None,
            self matches Material::Diffuse(d) ==> res matches Some((att, sc)) && att
                == texture_values(d.texture, u as int, v as int, point) && sc.origin == point
                && exists|s: Vec3|
                #[trigger] square_lens(s) <= FX_ONE as int && sc.dir == vs_sub(
                    vs_add(vs_add(point, normal), s),
                    point,
                ),
            self matches Material::Isotropic(i) ==> res matches Some((att, sc)) && att
                == texture_values(i.texture, u as int, v as int, point) && sc.origin == point
                && exists|s: Vec3| #[trigger] square_lens(s) <= FX_ONE as int && sc.dir == s,
            self matches Material::Specular(sp) ==> (res matches Some((att, sc)) ==> att
                == sp.albedo && sc.origin == point && dots(sc.dir, normal) > 0 && exists|s: Vec3|
                #[trigger] square_lens(s) <= FX_ONE as int && sc.dir == vs_add(
                    reflects(normalizes(r.dir), normal),
                    vs_mul_s(s, sp.fuzz as int),
                )) && (res is None ==> exists|s: Vec3|
                #[trigger] square_lens(s) <= FX_ONE as int && dots(
                    vs_add(reflects(normalizes(r.dir), normal), vs_mul_s(s, sp.fuzz as int)),
                    normal,
                ) <= 0),
            (self matches Material::Specular(sp) && sp.fuzz == 0) ==> {
                let refl = reflects(normalizes(r.dir), normal);
                &&& (res is Some <==> dots(refl, normal) > 0)
                &&& (res matches Some((att, sc)) ==> sc.dir == refl)
            },
            self matches Material::Dielectric(d) ==> res matches Some((att, sc)) && att == d.tint
                && sc.origin == point && {
                let (outward, ratio) = dielectric_outward_ratio(
                    d.refractive_index as int,
                    r,
                    normal,
                );
                match refracts(r.dir, outward, ratio) {
                    Option::None => sc.dir == reflects(r.dir, normal),
                    Option::Some(refr) => sc.dir == reflects(r.dir, normal) || sc.dir == refr,
                }
            },
    {
        match self {
            Material::Light(_) => None,
            Material::Diffuse(d) => {
                let bounce = rng.rand_in_unit_sphere();
                let target = point.add(normal).add(bounce);
                let scattered = Ray::new(point, target.sub(point));
                proof {
                    assert(square_lens(bounce) <= FX_ONE as int && scattered.dir == vs_sub(
                        vs_add(vs_add(point, normal), bounce),
                        point,
                    ));
                }
                Some((d.texture.value(u, v, point), scattered))
            },
            Material::Isotropic(i) => {
                let dir = rng.rand_in_unit_sphere();
                proof {
                    assert(square_lens(dir) <= FX_ONE as int);
                }
                Some((i.texture.value(u, v, point), Ray::new(point, dir)))
            },
            Material::Specular(sp) => {
                let reflected = r.dir.normalize().reflect(&normal);
                let sample = rng.rand_in_unit_sphere();
                let fuzzed = reflected.add(sample.mul_s(sp.fuzz));
                let scattered = Ray::new(point, fuzzed);
                proof {
                    assert(square_lens(sample) <= FX_ONE as int && fuzzed == vs_add(
                        reflects(normalizes(r.dir), normal),
                        vs_mul_s(sample, sp.fuzz as int),
                    ));
                }
                if scattered.dir.dot(&normal) > 0 {
                    Some((sp.albedo, scattered))
                } else {
                    None
                }
            },
            Material::Dielectric(d) => {
                let reflected = r.dir.reflect(&normal);
                let into_surface = r.dir.dot(&normal) > 0;
                let outward = if into_surface {
                    normal.neg()
                } else {
                    normal
                };
                let ratio = if into_surface {
                    d.refractive_index
                } else {
                    fx_div(FX_ONE, d.refractive_index)
                };
                let raw_cos = if into_surface {
                    fx_mul(d.refractive_index, fx_div(r.dir.dot(&normal), r.dir.len()))
                } else {
                    fx_neg(fx_div(r.dir.dot(&normal), r.dir.len()))
                };
                let cosine = fx_max(0, fx_min(raw_cos, FX_ONE));
                let (use_reflect, refracted): (bool, Vec3) = match r.dir.refract(
                    &outward,
                    ratio,
                ) {
                    Some(refr) => {
                        let prob = schlick(cosine, d.refractive_index);
                        (rng.next_unit() < prob, refr)
                    },
                    None => (true, Vec3::zero()),
                };
                let dir = if use_reflect {
                    reflected
                } else {
                    refracted
                };
                Some((d.tint, Ray::new(point, dir)))
            },
        }
    }

    /// What the material emits: its texture's colour for a light, black for
    /// everything else.
    pub fn emit(&self, u: i64, v: i64, p: Vec3) -> (r: Vec3)
        requires
            mat_wf(*self),
        ensures
            r == emits(*self, u as int, v as int, p),
    {
        match self {
            Material::Light(l) => l.texture.value(u, v, p),
            _ => Vec3::zero(),
        }
    }
}

} // verus!
