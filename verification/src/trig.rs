//! Fixed-point circular functions.
//!
//! The renderer needs trigonometry only to map directions to texture
//! coordinates and to drive the marble pattern, so a compact rational
//! approximation is enough: a Bhaskara-style sine and the classic one-term
//! arctangent, both clamped so their stated ranges hold exactly.  As with the
//! scalar operations, each executable function is pinned to its spec twin.

use vstd::prelude::*;

use crate::fx::{
    absi, clip, fx_abs, fx_add, fx_div, fx_mul, fx_sqrt, fx_sub, fxs_add, fxs_div, fxs_mul,
    fxs_sqrt, fxs_sub, lemma_mul_unit_bound, FX_ONE, SCALE,
};

verus! {

/// Pi in raw fixed-point units (rounded down).
pub const FX_PI: i64 = 205887;

/// Pi over two.
pub const FX_HALF_PI: i64 = 102943;

/// Pi over four.
pub const FX_QUARTER_PI: i64 = 51471;

/// The arctangent correction coefficient 0.273.
pub const FX_ATAN_K: i64 = 17892;

/// Bhaskara-style sine on one half-period `0 <= r < FX_PI`, clamped into
/// `[0, 1]`: `16 r (pi - r) / (5 pi^2 - 4 r (pi - r))`.
pub open spec fn sin_halfs(r: int) -> int {
    let m = fxs_mul(r, FX_PI as int - r);
    let n = fxs_mul(16 * SCALE as int, m);
    let d = fxs_sub(fxs_mul(fxs_mul(5 * SCALE as int, FX_PI as int), FX_PI as int), fxs_mul(
        4 * SCALE as int,
        m,
    ));
    let v = fxs_div(n, d);
    if v < 0 {
        0
    } else if v > SCALE as int {
        SCALE as int
    } else {
        v
    }
}

/// The sine of an angle in raw units: the half-period approximation with the
/// sign flipped on odd half-periods.
pub open spec fn sins(x: int) -> int {
    let q = x / (FX_PI as int);
    let r = x % (FX_PI as int);
    if q % 2 == 0 {
        sin_halfs(r)
    } else {
        -sin_halfs(r)
    }
}

/// One-term arctangent on `0 <= z <= 1`: `z * (pi/4 + 0.273 * (1 - z))`.
pub open spec fn atan_cores(z: int) -> int {
    fxs_mul(z, fxs_add(FX_QUARTER_PI as int, fxs_mul(FX_ATAN_K as int, fxs_sub(SCALE as int, z))))
}

/// Four-quadrant arctangent, in `[-pi, pi]`.
pub open spec fn atan2s(y: int, x: int) -> int {
    if y == 0 && x == 0 {
        0
    } else {
        let ay = clip(absi(y));
        let ax = clip(absi(x));
        let base = if ax >= ay {
            atan_cores(fxs_div(ay, ax))
        } else {
            fxs_sub(FX_HALF_PI as int, atan_cores(fxs_div(ax, ay)))
        };
        let angle = if x >= 0 {
            base
        } else {
            fxs_sub(FX_PI as int, base)
        };
        if y < 0 {
            -angle
        } else {
            angle
        }
    }
}

/// Arcsine on `[-1, 1]`, via `asin(x) = atan2(x, sqrt(1 - x^2))`.
pub open spec fn asins(x: int) -> int {
    atan2s(x, fxs_sqrt(fxs_sub(SCALE as int, fxs_mul(x, x))))
}

/// Fixed-point sine.
pub fn fx_sin(x: i64) -> (r: i64)
    ensures
        r as int == sins(x as int),
        -FX_ONE <= r <= FX_ONE,
{
    // euclidean division by pi: quotient parity picks the sign
    let xm: u64 = if x < 0 {
        (-(x as i128)) as u64
    } else {
        x as u64
    };
    let qm: u64 = xm / (FX_PI as u64);
    let rm: u64 = xm % (FX_PI as u64);
    let (q, rem): (u64, i64) = if x >= 0 {
        (qm, rm as i64)
    } else if rm == 0 {
        (qm, 0)
    } else {
        (qm + 1, FX_PI - rm as i64)
    };
    proof {
        let d = FX_PI as int;
        let xi = x as int;
        // the quotient of the euclidean division of x by pi has q's parity,
        // and its remainder is rem
        if x >= 0 {
            vstd::arithmetic::div_mod::lemma_fundamental_div_mod_converse(xi, d, qm as int,
                rm as int);
        } else if rm == 0 {
            assert(xi == (-(qm as int)) * d + 0) by (nonlinear_arith)
                requires
                    xm == qm * 205887 + rm,
                    rm == 0,
                    xi == -(xm as int),
                    d == 205887,
            ;
            vstd::arithmetic::div_mod::lemma_fundamental_div_mod_converse(xi, d, -(qm as int), 0);
            assert((-(qm as int)) % 2 == (qm as int) % 2) by (nonlinear_arith);
        } else {
            assert(xi == (-(qm as int) - 1) * d + (d - rm)) by (nonlinear_arith)
                requires
                    xm == qm * 205887 + rm,
                    xi == -(xm as int),
                    d == 205887,
            ;
            vstd::arithmetic::div_mod::lemma_fundamental_div_mod_converse(xi, d, -(qm as int) - 1,
                d - rm);
            assert((-(qm as int) - 1) % 2 == (qm as int + 1) % 2) by (nonlinear_arith);
        }
    }
    let v = sin_half(rem);
    if q % 2 == 0 {
        v
    } else {
        -v
    }
}

/// The half-period sine body shared by `fx_sin`.
fn sin_half(r: i64) -> (v: i64)
    requires
        0 <= r < FX_PI,
    ensures
        v as int == sin_halfs(r as int),
        0 <= v <= FX_ONE,
{
    let m = fx_mul(r, FX_PI - r);
    let n = fx_mul(16 * SCALE, m);
    let d = fx_sub(fx_mul(fx_mul(5 * SCALE, FX_PI), FX_PI), fx_mul(4 * SCALE, m));
    let v = fx_div(n, d);
    if v < 0 {
        0
    } else if v > SCALE {
        SCALE
    } else {
        v
    }
}

/// The one-term arctangent core on `[0, 1]`; result in `[0, pi/2]`.
fn atan_core(z: i64) -> (r: i64)
    requires
        0 <= z <= FX_ONE,
    ensures
        r as int == atan_cores(z as int),
        0 <= r <= FX_HALF_PI,
{
    let w = fx_add(FX_QUARTER_PI, fx_mul(FX_ATAN_K, fx_sub(FX_ONE, z)));
    proof {
        lemma_mul_unit_bound(FX_ATAN_K as int, fxs_sub(SCALE as int, z as int));
        lemma_mul_unit_bound(z as int, w as int);
    }
    fx_mul(z, w)
}

/// Four-quadrant fixed-point arctangent; result in `[-pi, pi]`.
pub fn fx_atan2(y: i64, x: i64) -> (r: i64)
    ensures
        r as int == atan2s(y as int, x as int),
        -FX_PI <= r <= FX_PI,
{
    if y == 0 && x == 0 {
        return 0;
    }
    let ay = fx_abs(y);
    let ax = fx_abs(x);
    let base: i64 = if ax >= ay {
        let z = fx_div(ay, ax);
        proof {
            if ax > 0 {
                assert(0 <= tdiv_frac(ay as int, ax as int) <= SCALE as int) by (nonlinear_arith)
                    requires
                        0 <= ay <= ax,
                        ax > 0,
                        tdiv_frac(ay as int, ax as int) == (ay as int * SCALE as int) / (
                        ax as int),
                ;
            }
        }
        atan_core(z)
    } else {
        let z = fx_div(ax, ay);
        proof {
            assert(0 <= tdiv_frac(ax as int, ay as int) <= SCALE as int) by (nonlinear_arith)
                requires
                    0 <= ax < ay,
                    tdiv_frac(ax as int, ay as int) == (ax as int * SCALE as int) / (ay as int),
            ;
        }
        fx_sub(FX_HALF_PI, atan_core(z))
    };
    let angle: i64 = if x >= 0 {
        base
    } else {
        fx_sub(FX_PI, base)
    };
    if y < 0 {
        -angle
    } else {
        angle
    }
}

/// The nonnegative quotient scaled into fixed point (a proof helper).
pub open spec fn tdiv_frac(a: int, b: int) -> int {
    (a * SCALE as int) / b
}

/// The natural log of ten in raw units, converting a decimal logarithm
/// into a natural one.
pub const FX_LN_10: i64 = 150902;

/// The decimal-log coefficient `log10(2)` in raw units.
pub const FX_LOG10_2: i64 = 19728;

/// Minus the decimal logarithm of a unit-interval sample, used to draw a
/// volume's stochastic collision distance.  A crude two-piece approximation
/// is enough here: only nonnegativity matters to the caller, the value
/// itself only shapes a random distance.
pub fn fx_neg_log10_unit(u: i64) -> (r: i64)
    requires
        0 <= u < FX_ONE,
    ensures
        r >= 0,
{
    if u == 0 {
        return 20 * SCALE;
    }
    let mut v: i64 = u;
    let mut e: i64 = 0;
    while v < 32768 && e < 17
        invariant
            1 <= v <= 65535,
            0 <= e <= 17,
        decreases 17 - e,
    {
        v = 2 * v;
        e = e + 1;
    }
    let l2: i64 = e * SCALE + (2 * SCALE - 2 * v);
    proof {
        lemma_mul_unit_bound(FX_LOG10_2 as int, l2 as int);
    }
    fx_mul(l2, FX_LOG10_2)
}

/// Fixed-point arcsine on `[-1, 1]`; result in `[-pi, pi]`.
pub fn fx_asin(x: i64) -> (r: i64)
    requires
        -FX_ONE <= x <= FX_ONE,
    ensures
        r as int == asins(x as int),
        -FX_PI <= r <= FX_PI,
{
    let s = fx_sqrt(fx_sub(FX_ONE, fx_mul(x, x)));
    fx_atan2(x, s)
}

} // verus!
