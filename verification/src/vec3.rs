//! Three-component fixed-point vectors.
//!
//! Every executable operation is pinned to a spec twin (`vs_add`, `dots`,
//! ...), so contracts elsewhere can state a result exactly as a formula over
//! the scalar model in `fx`.

use vstd::prelude::*;

use crate::axis::Axis;
use crate::fx::{
    fx_add, fx_div, fx_from_int, fx_max, fx_min, fx_mul, fx_neg, fx_sqrt, fx_sub, fxs_add,
    fxs_div, fxs_mul, fxs_neg, fxs_sqrt, fxs_sub, FX_ONE, SCALE,
};

verus! {

#[derive(Clone, Copy, Debug, PartialEq, Eq, Structural)]
pub struct Vec3 {
    pub x: i64,
    pub y: i64,
    pub z: i64,
}

/// Componentwise saturating sum.
pub open spec fn vs_add(a: Vec3, b: Vec3) -> Vec3 {
    Vec3 {
        x: fxs_add(a.x as int, b.x as int) as i64,
        y: fxs_add(a.y as int, b.y as int) as i64,
        z: fxs_add(a.z as int, b.z as int) as i64,
    }
}

/// Componentwise saturating difference.
pub open spec fn vs_sub(a: Vec3, b: Vec3) -> Vec3 {
    Vec3 {
        x: fxs_sub(a.x as int, b.x as int) as i64,
        y: fxs_sub(a.y as int, b.y as int) as i64,
        z: fxs_sub(a.z as int, b.z as int) as i64,
    }
}

/// Componentwise negation.
pub open spec fn vs_neg(a: Vec3) -> Vec3 {
    Vec3 {
        x: fxs_neg(a.x as int) as i64,
        y: fxs_neg(a.y as int) as i64,
        z: fxs_neg(a.z as int) as i64,
    }
}

/// Componentwise saturating product.
pub open spec fn vs_mul(a: Vec3, b: Vec3) -> Vec3 {
    Vec3 {
        x: fxs_mul(a.x as int, b.x as int) as i64,
        y: fxs_mul(a.y as int, b.y as int) as i64,
        z: fxs_mul(a.z as int, b.z as int) as i64,
    }
}

/// Scaling by a scalar.
pub open spec fn vs_mul_s(a: Vec3, s: int) -> Vec3 {
    Vec3 {
        x: fxs_mul(a.x as int, s) as i64,
        y: fxs_mul(a.y as int, s) as i64,
        z: fxs_mul(a.z as int, s) as i64,
    }
}

/// Componentwise saturating quotient.
pub open spec fn vs_div(a: Vec3, b: Vec3) -> Vec3 {
    Vec3 {
        x: fxs_div(a.x as int, b.x as int) as i64,
        y: fxs_div(a.y as int, b.y as int) as i64,
        z: fxs_div(a.z as int, b.z as int) as i64,
    }
}

/// Division by a scalar.
pub open spec fn vs_div_s(a: Vec3, s: int) -> Vec3 {
    Vec3 {
        x: fxs_div(a.x as int, s) as i64,
        y: fxs_div(a.y as int, s) as i64,
        z: fxs_div(a.z as int, s) as i64,
    }
}

/// Componentwise minimum.
pub open spec fn vs_min(a: Vec3, b: Vec3) -> Vec3 {
    Vec3 {
        x: if a.x <= b.x {
            a.x
        } else {
            b.x
        },
        y: if a.y <= b.y {
            a.y
        } else {
            b.y
        },
        z: if a.z <= b.z {
            a.z
        } else {
            b.z
        },
    }
}

/// Componentwise maximum.
pub open spec fn vs_max(a: Vec3, b: Vec3) -> Vec3 {
    Vec3 {
        x: if a.x >= b.x {
            a.x
        } else {
            b.x
        },
        y: if a.y >= b.y {
            a.y
        } else {
            b.y
        },
        z: if a.z >= b.z {
            a.z
        } else {
            b.z
        },
    }
}

/// Dot product: the three channel products summed left to right.
pub open spec fn dots(a: Vec3, b: Vec3) -> int {
    fxs_add(
        fxs_add(fxs_mul(a.x as int, b.x as int), fxs_mul(a.y as int, b.y as int)),
        fxs_mul(a.z as int, b.z as int),
    )
}

/// Cross product.
pub open spec fn crosss(a: Vec3, b: Vec3) -> Vec3 {
    Vec3 {
        x: fxs_sub(fxs_mul(a.y as int, b.z as int), fxs_mul(a.z as int, b.y as int)) as i64,
        y: fxs_neg(
            fxs_sub(fxs_mul(a.x as int, b.z as int), fxs_mul(a.z as int, b.x as int)),
        ) as i64,
        z: fxs_sub(fxs_mul(a.x as int, b.y as int), fxs_mul(a.y as int, b.x as int)) as i64,
    }
}

/// Squared length.
pub open spec fn square_lens(a: Vec3) -> int {
    dots(a, a)
}

/// Length: square root of the squared length.
pub open spec fn lens(a: Vec3) -> int {
    fxs_sqrt(square_lens(a))
}

/// Normalisation: division by the length (saturating on a zero vector).
pub open spec fn normalizes(a: Vec3) -> Vec3 {
    vs_div_s(a, lens(a))
}

/// The component selected by an axis.
pub open spec fn axis_of(a: Vec3, ax: Axis) -> i64 {
    match ax {
        Axis::X => a.x,
        Axis::Y => a.y,
        Axis::Z => a.z,
    }
}

/// The vector with one component replaced.
pub open spec fn with_axis(a: Vec3, ax: Axis, val: i64) -> Vec3 {
    match ax {
        Axis::X => Vec3 { x: val, ..a },
        Axis::Y => Vec3 { y: val, ..a },
        Axis::Z => Vec3 { z: val, ..a },
    }
}

/// Mirror reflection about a normal: `v - n * (2 * dot(v, n))`.
pub open spec fn reflects(v: Vec3, n: Vec3) -> Vec3 {
    vs_sub(v, vs_mul_s(vs_mul_s(n, dots(v, n)), 2 * SCALE as int))
}

/// Snell-law refraction of `v` about the outward normal, or `None` on total
/// internal reflection (nonpositive discriminant).
pub open spec fn refracts(v: Vec3, n: Vec3, index_ratio: int) -> Option<Vec3> {
    let unit = normalizes(v);
    let dt = dots(unit, n);
    let disc = fxs_sub(
        SCALE as int,
        fxs_mul(fxs_mul(index_ratio, index_ratio), fxs_sub(SCALE as int, fxs_mul(dt, dt))),
    );
    if disc > 0 {
        Some(
            vs_sub(
                vs_mul_s(vs_sub(unit, vs_mul_s(n, dt)), index_ratio),
                vs_mul_s(n, fxs_sqrt(disc)),
            ),
        )
    } else {
        None
    }
}

/// Rotation about the x axis by an angle given as cosine and sine.
pub open spec fn rotate_xs(a: Vec3, cos_t: int, sin_t: int) -> Vec3 {
    Vec3 {
        x: a.x,
        y: fxs_sub(fxs_mul(cos_t, a.y as int), fxs_mul(sin_t, a.z as int)) as i64,
        z: fxs_add(fxs_mul(sin_t, a.y as int), fxs_mul(cos_t, a.z as int)) as i64,
    }
}

/// Rotation about the y axis.
pub open spec fn rotate_ys(a: Vec3, cos_t: int, sin_t: int) -> Vec3 {
    Vec3 {
        x: fxs_add(fxs_mul(cos_t, a.x as int), fxs_mul(sin_t, a.z as int)) as i64,
        y: a.y,
        z: fxs_add(fxs_neg(fxs_mul(sin_t, a.x as int)), fxs_mul(cos_t, a.z as int)) as i64,
    }
}

/// Rotation about the z axis.
pub open spec fn rotate_zs(a: Vec3, cos_t: int, sin_t: int) -> Vec3 {
    Vec3 {
        x: fxs_sub(fxs_mul(cos_t, a.x as int), fxs_mul(sin_t, a.y as int)) as i64,
        y: fxs_add(fxs_mul(sin_t, a.x as int), fxs_mul(cos_t, a.y as int)) as i64,
        z: a.z,
    }
}

/// The componentwise product with the all-ones vector is the identity.
pub proof fn lemma_vs_mul_one(v: Vec3)
    ensures
        vs_mul(Vec3 { x: SCALE, y: SCALE, z: SCALE }, v) == v,
        vs_mul(v, Vec3 { x: SCALE, y: SCALE, z: SCALE }) == v,
{
    crate::fx::lemma_fxs_mul_one(v.x as int);
    crate::fx::lemma_fxs_mul_one(v.y as int);
    crate::fx::lemma_fxs_mul_one(v.z as int);
}

/// The componentwise products with the zero vector are zero.
pub proof fn lemma_vs_mul_zero(v: Vec3, s: int)
    ensures
        vs_mul(v, Vec3 { x: 0i64, y: 0i64, z: 0i64 }) == (Vec3 { x: 0i64, y: 0i64, z: 0i64 }),
        vs_mul(Vec3 { x: 0i64, y: 0i64, z: 0i64 }, v) == (Vec3 { x: 0i64, y: 0i64, z: 0i64 }),
        vs_mul_s(Vec3 { x: 0i64, y: 0i64, z: 0i64 }, s) == (Vec3 { x: 0i64, y: 0i64, z: 0i64 }),
{
    crate::fx::lemma_fxs_mul_zero(v.x as int);
    crate::fx::lemma_fxs_mul_zero(v.y as int);
    crate::fx::lemma_fxs_mul_zero(v.z as int);
    crate::fx::lemma_fxs_mul_zero(s);
}

impl Vec3 {
    pub fn new(x: i64, y: i64, z: i64) -> (r: Vec3)
        ensures
            r == (Vec3 { x, y, z }),
    {
        Vec3 { x, y, z }
    }

    /// The zero vector.
    pub fn zero() -> (r: Vec3)
        ensures
            r == (Vec3 { x: 0i64, y: 0i64, z: 0i64 }),
    {
        Vec3 { x: 0, y: 0, z: 0 }
    }

    /// The vector with all three components equal to `s`.
    pub fn from_scalar(s: i64) -> (r: Vec3)
        ensures
            r == (Vec3 { x: s, y: s, z: s }),
    {
        Vec3 { x: s, y: s, z: s }
    }

    pub fn add(self, o: Vec3) -> (r: Vec3)
        ensures
            r == vs_add(self, o),
    {
        Vec3 { x: fx_add(self.x, o.x), y: fx_add(self.y, o.y), z: fx_add(self.z, o.z) }
    }

    pub fn sub(self, o: Vec3) -> (r: Vec3)
        ensures
            r == vs_sub(self, o),
    {
        Vec3 { x: fx_sub(self.x, o.x), y: fx_sub(self.y, o.y), z: fx_sub(self.z, o.z) }
    }

    pub fn neg(self) -> (r: Vec3)
        ensures
            r == vs_neg(self),
    {
        Vec3 { x: fx_neg(self.x), y: fx_neg(self.y), z: fx_neg(self.z) }
    }

    pub fn mul(self, o: Vec3) -> (r: Vec3)
        ensures
            r == vs_mul(self, o),
    {
        Vec3 { x: fx_mul(self.x, o.x), y: fx_mul(self.y, o.y), z: fx_mul(self.z, o.z) }
    }

    pub fn mul_s(self, s: i64) -> (r: Vec3)
        ensures
            r == vs_mul_s(self, s as int),
    {
        Vec3 { x: fx_mul(self.x, s), y: fx_mul(self.y, s), z: fx_mul(self.z, s) }
    }

    pub fn div(self, o: Vec3) -> (r: Vec3)
        ensures
            r == vs_div(self, o),
    {
        Vec3 { x: fx_div(self.x, o.x), y: fx_div(self.y, o.y), z: fx_div(self.z, o.z) }
    }

    pub fn div_s(self, s: i64) -> (r: Vec3)
        ensures
            r == vs_div_s(self, s as int),
    {
        Vec3 { x: fx_div(self.x, s), y: fx_div(self.y, s), z: fx_div(self.z, s) }
    }

    pub fn dot(&self, o: &Vec3) -> (r: i64)
        ensures
            r as int == dots(*self, *o),
    {
        fx_add(fx_add(fx_mul(self.x, o.x), fx_mul(self.y, o.y)), fx_mul(self.z, o.z))
    }

    pub fn cross(&self, o: &Vec3) -> (r: Vec3)
        ensures
            r == crosss(*self, *o),
    {
        Vec3 {
            x: fx_sub(fx_mul(self.y, o.z), fx_mul(self.z, o.y)),
            y: fx_neg(fx_sub(fx_mul(self.x, o.z), fx_mul(self.z, o.x))),
            z: fx_sub(fx_mul(self.x, o.y), fx_mul(self.y, o.x)),
        }
    }

    pub fn square_len(&self) -> (r: i64)
        ensures
            r as int == square_lens(*self),
    {
        self.dot(self)
    }

    pub fn len(&self) -> (r: i64)
        ensures
            r as int == lens(*self),
    {
        fx_sqrt(self.square_len())
    }

    pub fn normalize(&self) -> (r: Vec3)
        ensures
            r == normalizes(*self),
    {
        self.div_s(self.len())
    }

    pub fn piecewise_min(&self, o: Vec3) -> (r: Vec3)
        ensures
            r == vs_min(*self, o),
    {
        Vec3 { x: fx_min(self.x, o.x), y: fx_min(self.y, o.y), z: fx_min(self.z, o.z) }
    }

    pub fn piecewise_max(&self, o: Vec3) -> (r: Vec3)
        ensures
            r == vs_max(*self, o),
    {
        Vec3 { x: fx_max(self.x, o.x), y: fx_max(self.y, o.y), z: fx_max(self.z, o.z) }
    }

    pub fn get_axis(&self, a: Axis) -> (r: i64)
        ensures
            r == axis_of(*self, a),
    {
        match a {
            Axis::X => self.x,
            Axis::Y => self.y,
            Axis::Z => self.z,
        }
    }

    pub fn set_axis(&self, a: Axis, val: i64) -> (r: Vec3)
        ensures
            r == with_axis(*self, a, val),
    {
        let mut temp = *self;
        match a {
            Axis::X => temp.x = val,
            Axis::Y => temp.y = val,
            Axis::Z => temp.z = val,
        }
        temp
    }

    /// Rotate about the x axis (cosine and sine supplied by the caller).
    pub fn rotate_x(&self, cos_theta: i64, sin_theta: i64) -> (r: Vec3)
        ensures
            r == rotate_xs(*self, cos_theta as int, sin_theta as int),
    {
        Vec3 {
            x: self.x,
            y: fx_sub(fx_mul(cos_theta, self.y), fx_mul(sin_theta, self.z)),
            z: fx_add(fx_mul(sin_theta, self.y), fx_mul(cos_theta, self.z)),
        }
    }

    /// Rotate about the y axis.
    pub fn rotate_y(&self, cos_theta: i64, sin_theta: i64) -> (r: Vec3)
        ensures
            r == rotate_ys(*self, cos_theta as int, sin_theta as int),
    {
        Vec3 {
            x: fx_add(fx_mul(cos_theta, self.x), fx_mul(sin_theta, self.z)),
            y: self.y,
            z: fx_add(fx_neg(fx_mul(sin_theta, self.x)), fx_mul(cos_theta, self.z)),
        }
    }

    /// Rotate about the z axis.
    pub fn rotate_z(&self, cos_theta: i64, sin_theta: i64) -> (r: Vec3)
        ensures
            r == rotate_zs(*self, cos_theta as int, sin_theta as int),
    {
        Vec3 {
            x: fx_sub(fx_mul(cos_theta, self.x), fx_mul(sin_theta, self.y)),
            y: fx_add(fx_mul(sin_theta, self.x), fx_mul(cos_theta, self.y)),
            z: self.z,
        }
    }

    /// Rotate about a chosen axis.
    pub fn rotate(&self, a: Axis, cos_theta: i64, sin_theta: i64) -> (r: Vec3)
        ensures
            a == Axis::X ==> r == rotate_xs(*self, cos_theta as int, sin_theta as int),
            a == Axis::Y ==> r == rotate_ys(*self, cos_theta as int, sin_theta as int),
            a == Axis::Z ==> r == rotate_zs(*self, cos_theta as int, sin_theta as int),
    {
        match a {
            Axis::X => self.rotate_x(cos_theta, sin_theta),
            Axis::Y => self.rotate_y(cos_theta, sin_theta),
            Axis::Z => self.rotate_z(cos_theta, sin_theta),
        }
    }

    pub fn reflect(&self, normal: &Vec3) -> (r: Vec3)
        ensures
            r == reflects(*self, *normal),
    {
        self.sub(normal.mul_s(self.dot(normal)).mul_s(fx_from_int(2)))
    }

    pub fn refract(&self, normal: &Vec3, index_ratio: i64) -> (r: Option<Vec3>)
        ensures
            r == refracts(*self, *normal, index_ratio as int),
    {
        let unit = self.normalize();
        let dt = unit.dot(normal);
        let disc = fx_sub(
            FX_ONE,
            fx_mul(fx_mul(index_ratio, index_ratio), fx_sub(FX_ONE, fx_mul(dt, dt))),
        );
        if disc > 0 {
            Some(
                unit.sub(normal.mul_s(dt)).mul_s(index_ratio).sub(normal.mul_s(fx_sqrt(disc))),
            )
        } else {
            None
        }
    }
}

} // verus!
