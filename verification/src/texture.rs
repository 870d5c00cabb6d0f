//! Procedural and bitmap textures.
//!
//! The texture set is small and closed, so it is a tagged union dispatched by
//! `match` rather than a trait object.  Every variant's lookup is pinned to
//! `texture_values`, its spec twin.

use vstd::prelude::*;

use crate::fx::{
    fx_add, fx_div, fx_floor_div, fx_max, fx_min, fx_mul, fx_sub, fxs_add, fxs_div, fxs_mul,
    fxs_sub, absi, clip, FX_ONE, SCALE,
};
use crate::image::{img_values, img_wf, Image};
use crate::rng::Rng;
use crate::trig::{fx_sin, sins};
use crate::vec3::{dots, vs_mul_s, Vec3};

verus! {

/// 0.5 in raw units.
pub const FX_HALF: i64 = 32768;

#[derive(Clone, Copy, Debug, PartialEq, Eq, Structural)]
pub enum PerlinVariant {
    Noise,
    Rock,
    Marble,
}

/// A single colour everywhere.
#[derive(Debug, Clone)]
pub struct Solid {
    pub color: Vec3,
}

/// The debugging gradient: colour read straight from the texture coordinates.
#[derive(Debug, Clone)]
pub struct SimpleGradient {}

/// A two-dimensional checkerboard over the texture coordinates.
#[derive(Debug)]
pub struct Checkered {
    pub a: Box<Texture>,
    pub b: Box<Texture>,
    pub size: i64,
}

/// A three-dimensional checkerboard over world-space position.
#[derive(Debug)]
pub struct Checkered3D {
    pub a: Box<Texture>,
    pub b: Box<Texture>,
    pub size: i64,
}

/// Lattice noise with its gradient and permutation tables held by value.
/// The scale is inverted: smaller numbers make the pattern larger.
#[derive(Debug, Clone)]
pub struct Perlin {
    pub scale: i64,
    pub color: Vec3,
    pub kind: PerlinVariant,
    pub rand_vec: Vec<Vec3>,
    pub perm_x: Vec<u8>,
    pub perm_y: Vec<u8>,
    pub perm_z: Vec<u8>,
}

#[derive(Debug)]
pub enum Texture {
    Solid(Solid),
    Checkered(Checkered),
    Checkered3D(Checkered3D),
    Perlin(Perlin),
    Image(Image),
    Gradient(SimpleGradient),
}

/// A gradient entry lies in the unit cube: each component in `[-1, 1]`.
pub open spec fn gradient_in_cube(g: Vec3) -> bool {
    -FX_ONE <= g.x <= FX_ONE && -FX_ONE <= g.y <= FX_ONE && -FX_ONE <= g.z <= FX_ONE
}

/// The noise tables hold exactly 256 entries each, and every stored
/// gradient lies in the unit cube (so each corner's dot product, and hence
/// the noise itself, is bounded).
pub open spec fn perlin_wf(p: Perlin) -> bool {
    &&& p.rand_vec@.len() == 256
    &&& p.perm_x@.len() == 256
    &&& p.perm_y@.len() == 256
    &&& p.perm_z@.len() == 256
    &&& forall|i: int| 0 <= i < 256 ==> gradient_in_cube(#[trigger] p.rand_vec@[i])
}

/// Validity of a texture: bitmap invariants hold and noise tables are full,
/// recursively through checkerboard children.
pub open spec fn tex_wf(t: Texture) -> bool
    decreases t,
{
    match t {
        Texture::Solid(_) => true,
        Texture::Gradient(_) => true,
        Texture::Checkered(c) => tex_wf(*c.a) && tex_wf(*c.b),
        Texture::Checkered3D(c) => tex_wf(*c.a) && tex_wf(*c.b),
        Texture::Perlin(p) => perlin_wf(p),
        Texture::Image(img) => img_wf(img),
    }
}

/// The Hermite smoothing `f * f * (3 - 2 f)` applied to a lattice fraction.
pub open spec fn smooths(f: int) -> int {
    fxs_mul(fxs_mul(f, f), fxs_sub(3 * SCALE as int, fxs_mul(2 * SCALE as int, f)))
}

/// One lattice-corner contribution to the noise sum: the trilinear weight
/// times the corner gradient dotted with the offset from the corner.
pub open spec fn corner_specd(
    p: Perlin,
    qx: int,
    qy: int,
    qz: int,
    u: int,
    v: int,
    w: int,
    uu: int,
    vv: int,
    ww: int,
    i: int,
    j: int,
    k: int,
) -> int {
    let px = p.perm_x@[(qx + i) % 256];
    let py = p.perm_y@[(qy + j) % 256];
    let pz = p.perm_z@[(qz + k) % 256];
    let g = p.rand_vec@[(px ^ py ^ pz) as int];
    let wi = if i == 1 {
        uu
    } else {
        fxs_sub(SCALE as int, uu)
    };
    let wj = if j == 1 {
        vv
    } else {
        fxs_sub(SCALE as int, vv)
    };
    let wk = if k == 1 {
        ww
    } else {
        fxs_sub(SCALE as int, ww)
    };
    fxs_mul(
        fxs_mul(fxs_mul(wi, wj), wk),
        dots(
            g,
            Vec3 {
                x: (u - i * SCALE as int) as i64,
                y: (v - j * SCALE as int) as i64,
                z: (w - k * SCALE as int) as i64,
            },
        ),
    )
}

/// The noise value at a point: the eight corner contributions summed in
/// lexicographic corner order.
pub open spec fn noise_specd(p: Perlin, pt: Vec3) -> int {
    let qx = pt.x as int / SCALE as int;
    let qy = pt.y as int / SCALE as int;
    let qz = pt.z as int / SCALE as int;
    let u = pt.x as int % SCALE as int;
    let v = pt.y as int % SCALE as int;
    let w = pt.z as int % SCALE as int;
    let uu = smooths(u);
    let vv = smooths(v);
    let ww = smooths(w);
    fxs_add(
        fxs_add(
            fxs_add(
                fxs_add(
                    fxs_add(
                        fxs_add(
                            fxs_add(
                                corner_specd(p, qx, qy, qz, u, v, w, uu, vv, ww, 0, 0, 0),
                                corner_specd(p, qx, qy, qz, u, v, w, uu, vv, ww, 0, 0, 1),
                            ),
                            corner_specd(p, qx, qy, qz, u, v, w, uu, vv, ww, 0, 1, 0),
                        ),
                        corner_specd(p, qx, qy, qz, u, v, w, uu, vv, ww, 0, 1, 1),
                    ),
                    corner_specd(p, qx, qy, qz, u, v, w, uu, vv, ww, 1, 0, 0),
                ),
                corner_specd(p, qx, qy, qz, u, v, w, uu, vv, ww, 1, 0, 1),
            ),
            corner_specd(p, qx, qy, qz, u, v, w, uu, vv, ww, 1, 1, 0),
        ),
        corner_specd(p, qx, qy, qz, u, v, w, uu, vv, ww, 1, 1, 1),
    )
}

/// The turbulence accumulator: seven octaves of noise, each at double the
/// frequency and half the weight, with the absolute value of the sum at the
/// end.
pub open spec fn turb_gos(p: Perlin, pt: Vec3, depth: int, weight: int, accum: int) -> int
    decreases depth,
{
    if depth <= 0 {
        clip(absi(accum))
    } else {
        turb_gos(
            p,
            vs_mul_s(pt, 2 * SCALE as int),
            depth - 1,
            fxs_div(weight, 2 * SCALE as int),
            fxs_add(accum, fxs_mul(weight, noise_specd(p, pt))),
        )
    }
}

/// Turbulence of a point, at the standard octave depth.
pub open spec fn turbs(p: Perlin, pt: Vec3) -> int {
    turb_gos(p, pt, 7, SCALE as int, 0)
}

/// The colour a texture yields at surface coordinates `(u, v)` and world
/// point `pt`.
pub open spec fn texture_values(t: Texture, u: int, v: int, pt: Vec3) -> Vec3
    decreases t,
{
    match t {
        Texture::Solid(s) => s.color,
        Texture::Gradient(_) => Vec3 {
            x: u as i64,
            y: v as i64,
            z: fxs_sub(fxs_sub(SCALE as int, u), v) as i64,
        },
        Texture::Checkered(c) => if fxs_mul(
            sins(fxs_mul(c.size as int, u)),
            sins(fxs_mul(c.size as int, v)),
        ) < 0 {
            texture_values(*c.a, u, v, pt)
        } else {
            texture_values(*c.b, u, v, pt)
        },
        Texture::Checkered3D(c) => if fxs_mul(
            fxs_mul(
                sins(fxs_mul(c.size as int, pt.x as int)),
                sins(fxs_mul(c.size as int, pt.y as int)),
            ),
            sins(fxs_mul(c.size as int, pt.z as int)),
        ) < 0 {
            texture_values(*c.a, u, v, pt)
        } else {
            texture_values(*c.b, u, v, pt)
        },
        Texture::Perlin(p) => match p.kind {
            PerlinVariant::Noise => vs_mul_s(
                p.color,
                fxs_mul(
                    FX_HALF as int,
                    fxs_add(SCALE as int, noise_specd(p, vs_mul_s(pt, p.scale as int))),
                ),
            ),
            PerlinVariant::Marble => vs_mul_s(
                p.color,
                fxs_mul(
                    FX_HALF as int,
                    fxs_add(
                        SCALE as int,
                        sins(
                            fxs_add(
                                fxs_mul(pt.z as int, p.scale as int),
                                fxs_mul(10 * SCALE as int, turbs(p, pt)),
                            ),
                        ),
                    ),
                ),
            ),
            PerlinVariant::Rock => vs_mul_s(p.color, turbs(p, vs_mul_s(pt, p.scale as int))),
        },
        Texture::Image(img) => img_values(img, u, v),
    }
}

impl Solid {
    pub fn new(color: Vec3) -> (r: Solid)
        ensures
            r == (Solid { color }),
    {
        Solid { color }
    }
}

impl Checkered {
    pub fn new(a: Texture, b: Texture, size: i64) -> (r: Checkered)
        ensures
            r.a == a && r.b == b && r.size == size,
    {
        Checkered { a: Box::new(a), b: Box::new(b), size }
    }
}

impl Checkered3D {
    pub fn new(a: Texture, b: Texture, size: i64) -> (r: Checkered3D)
        ensures
            r.a == a && r.b == b && r.size == size,
    {
        Checkered3D { a: Box::new(a), b: Box::new(b), size }
    }
}

impl Perlin {
    /// Build a noise texture, drawing its gradient and permutation tables
    /// from the given generator.
    pub fn new(scale: i64, color: Vec3, kind: PerlinVariant, rng: &mut Rng) -> (r: Perlin)
        ensures
            perlin_wf(r),
            r.scale == scale && r.color == color && r.kind == kind,
    {
        Perlin {
            scale,
            color,
            kind,
            rand_vec: Perlin::rand_vectors(rng),
            perm_x: Perlin::rand_perm(rng),
            perm_y: Perlin::rand_perm(rng),
            perm_z: Perlin::rand_perm(rng),
        }
    }

    /// 256 pseudo-random direction vectors, each normalized and then
    /// clamped into the unit cube (normalizing a near-zero sample can
    /// overshoot, and the noise bound rests on the cube).
    fn rand_vectors(rng: &mut Rng) -> (r: Vec<Vec3>)
        ensures
            r@.len() == 256,
            forall|i: int| 0 <= i < 256 ==> gradient_in_cube(#[trigger] r@[i]),
    {
        let mut v: Vec<Vec3> = Vec::new();
        let mut i: usize = 0;
        while i < 256
            invariant
                v@.len() == i,
                i <= 256,
                forall|j: int| 0 <= j < i ==> gradient_in_cube(#[trigger] v@[j]),
            decreases 256 - i,
        {
            let p = rng.rand_in_unit_sphere().normalize();
            let g = Vec3 {
                x: fx_max(-FX_ONE, fx_min(p.x, FX_ONE)),
                y: fx_max(-FX_ONE, fx_min(p.y, FX_ONE)),
                z: fx_max(-FX_ONE, fx_min(p.z, FX_ONE)),
            };
            v.push(g);
            i = i + 1;
        }
        v
    }

    /// A pseudo-random permutation of the byte values (Fisher-Yates).
    fn rand_perm(rng: &mut Rng) -> (r: Vec<u8>)
        ensures
            r@.len() == 256,
    {
        let mut v: Vec<u8> = Vec::new();
        let mut i: usize = 0;
        while i < 256
            invariant
                v@.len() == i,
                i <= 256,
            decreases 256 - i,
        {
            v.push(i as u8);
            i = i + 1;
        }
        let mut k: usize = 255;
        while k > 0
            invariant
                v@.len() == 256,
                k <= 255,
            decreases k,
        {
            let bits = rng.next_bits();
            let j = (bits % (k as u64 + 1)) as usize;
            let tmp = v[k];
            let vj = v[j];
            v.set(k, vj);
            v.set(j, tmp);
            k = k - 1;
        }
        v
    }

    /// The noise value at a point.
    pub fn noise(&self, pt: Vec3) -> (r: i64)
        requires
            perlin_wf(*self),
        ensures
            r as int == noise_specd(*self, pt),
    {
        let (qx, u) = fx_floor_div(pt.x, SCALE);
        let (qy, v) = fx_floor_div(pt.y, SCALE);
        let (qz, w) = fx_floor_div(pt.z, SCALE);
        let uu = fx_mul(fx_mul(u, u), fx_sub(3 * SCALE, fx_mul(2 * SCALE, u)));
        let vv = fx_mul(fx_mul(v, v), fx_sub(3 * SCALE, fx_mul(2 * SCALE, v)));
        let ww = fx_mul(fx_mul(w, w), fx_sub(3 * SCALE, fx_mul(2 * SCALE, w)));
        let mut acc = self.corner(qx, qy, qz, u, v, w, uu, vv, ww, 0, 0, 0);
        acc = fx_add(acc, self.corner(qx, qy, qz, u, v, w, uu, vv, ww, 0, 0, 1));
        acc = fx_add(acc, self.corner(qx, qy, qz, u, v, w, uu, vv, ww, 0, 1, 0));
        acc = fx_add(acc, self.corner(qx, qy, qz, u, v, w, uu, vv, ww, 0, 1, 1));
        acc = fx_add(acc, self.corner(qx, qy, qz, u, v, w, uu, vv, ww, 1, 0, 0));
        acc = fx_add(acc, self.corner(qx, qy, qz, u, v, w, uu, vv, ww, 1, 0, 1));
        acc = fx_add(acc, self.corner(qx, qy, qz, u, v, w, uu, vv, ww, 1, 1, 0));
        acc = fx_add(acc, self.corner(qx, qy, qz, u, v, w, uu, vv, ww, 1, 1, 1));
        acc
    }

    /// One corner contribution (see `corner_specd`).
    fn corner(
        &self,
        qx: i64,
        qy: i64,
        qz: i64,
        u: i64,
        v: i64,
        w: i64,
        uu: i64,
        vv: i64,
        ww: i64,
        i: i64,
        j: i64,
        k: i64,
    ) -> (r: i64)
        requires
            perlin_wf(*self),
            0 <= i <= 1 && 0 <= j <= 1 && 0 <= k <= 1,
            -0x1_0000_0000_0000i64 <= qx <= 0x1_0000_0000_0000i64,
            -0x1_0000_0000_0000i64 <= qy <= 0x1_0000_0000_0000i64,
            -0x1_0000_0000_0000i64 <= qz <= 0x1_0000_0000_0000i64,
            0 <= u < SCALE && 0 <= v < SCALE && 0 <= w < SCALE,
        ensures
            r as int == corner_specd(
                *self,
                qx as int,
                qy as int,
                qz as int,
                u as int,
                v as int,
                w as int,
                uu as int,
                vv as int,
                ww as int,
                i as int,
                j as int,
                k as int,
            ),
    {
        let (_, ix) = fx_floor_div(qx + i, 256);
        let (_, iy) = fx_floor_div(qy + j, 256);
        let (_, iz) = fx_floor_div(qz + k, 256);
        let px = self.perm_x[ix as usize];
        let py = self.perm_y[iy as usize];
        let pz = self.perm_z[iz as usize];
        let g = self.rand_vec[(px ^ py ^ pz) as usize];
        let wi = if i == 1 {
            uu
        } else {
            fx_sub(SCALE, uu)
        };
        let wj = if j == 1 {
            vv
        } else {
            fx_sub(SCALE, vv)
        };
        let wk = if k == 1 {
            ww
        } else {
            fx_sub(SCALE, ww)
        };
        let offset = Vec3 { x: u - i * SCALE, y: v - j * SCALE, z: w - k * SCALE };
        fx_mul(fx_mul(fx_mul(wi, wj), wk), g.dot(&offset))
    }

    /// Turbulence: layered octaves of noise.
    pub fn turb(&self, pt: Vec3) -> (r: i64)
        requires
            perlin_wf(*self),
        ensures
            r as int == turbs(*self, pt),
    {
        self.turb_go(pt, 7, SCALE, 0)
    }

    /// One octave step of the turbulence accumulator.
    fn turb_go(&self, pt: Vec3, depth: u32, weight: i64, accum: i64) -> (r: i64)
        requires
            perlin_wf(*self),
        ensures
            r as int == turb_gos(*self, pt, depth as int, weight as int, accum as int),
        decreases depth,
    {
        if depth == 0 {
            if accum < 0 {
                if accum == i64::MIN {
                    i64::MAX
                } else {
                    -accum
                }
            } else {
                accum
            }
        } else {
            let n = self.noise(pt);
            self.turb_go(
                pt.mul_s(2 * SCALE),
                depth - 1,
                fx_div(weight, 2 * SCALE),
                fx_add(accum, fx_mul(weight, n)),
            )
        }
    }
}

impl Texture {
    /// The colour of this texture at `(u, v)` and world point `pt`.
    pub fn value(&self, u: i64, v: i64, pt: Vec3) -> (r: Vec3)
        requires
            tex_wf(*self),
        ensures
            r == texture_values(*self, u as int, v as int, pt),
        decreases *self,
    {
        match self {
            Texture::Solid(s) => s.color,
            Texture::Gradient(_) => Vec3 { x: u, y: v, z: fx_sub(fx_sub(SCALE, u), v) },
            Texture::Checkered(c) => {
                if fx_mul(fx_sin(fx_mul(c.size, u)), fx_sin(fx_mul(c.size, v))) < 0 {
                    c.a.value(u, v, pt)
                } else {
                    c.b.value(u, v, pt)
                }
            },
            Texture::Checkered3D(c) => {
                if fx_mul(
                    fx_mul(fx_sin(fx_mul(c.size, pt.x)), fx_sin(fx_mul(c.size, pt.y))),
                    fx_sin(fx_mul(c.size, pt.z)),
                ) < 0 {
                    c.a.value(u, v, pt)
                } else {
                    c.b.value(u, v, pt)
                }
            },
            Texture::Perlin(p) => match p.kind {
                PerlinVariant::Noise => p.color.mul_s(
                    fx_mul(FX_HALF, fx_add(SCALE, p.noise(pt.mul_s(p.scale)))),
                ),
                PerlinVariant::Marble => p.color.mul_s(
                    fx_mul(
                        FX_HALF,
                        fx_add(
                            SCALE,
                            fx_sin(
                                fx_add(fx_mul(pt.z, p.scale), fx_mul(10 * SCALE, p.turb(pt))),
                            ),
                        ),
                    ),
                ),
                PerlinVariant::Rock => p.color.mul_s(p.turb(pt.mul_s(p.scale))),
            },
            Texture::Image(img) => img.value(u, v),
        }
    }
}

} // verus!
