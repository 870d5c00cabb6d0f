//! Fixed-point scalar arithmetic.
//!
//! Every coordinate, colour channel and ray parameter in this crate is a
//! fixed-point number: an `i64` holding `value * SCALE`, with `SCALE = 2^16`.
//! Operations saturate at the `i64` range instead of wrapping, so the
//! saturation bounds double as the "infinities" the box slab test relies on,
//! and division rounds toward zero.  Each executable operation is pinned to a
//! spec-level twin (`fxs_add`, `fxs_mul`, ...) over mathematical integers.

use vstd::prelude::*;

verus! {

/// Number of raw units per 1.0.
pub const SCALE: i64 = 65536;

/// 1.0 in raw units (same value as `SCALE`, kept separate for readability).
pub const FX_ONE: i64 = 65536;

/// Saturation bound standing in for "plus infinity".
pub const FX_INF: i64 = i64::MAX;

/// Saturation bound standing in for "minus infinity".
pub const FX_NEG_INF: i64 = i64::MIN;

/// Absolute value over mathematical integers.
pub open spec fn absi(a: int) -> int {
    if a >= 0 {
        a
    } else {
        -a
    }
}

/// Saturate an unbounded integer into the `i64` range.
pub open spec fn clip(a: int) -> int {
    if a > i64::MAX as int {
        i64::MAX as int
    } else if a < i64::MIN as int {
        i64::MIN as int
    } else {
        a
    }
}

/// Division truncating toward zero (the rounding of Rust's `/`),
/// defined for any nonzero divisor.
pub open spec fn tdiv(a: int, b: int) -> int {
    if (a >= 0) == (b >= 0) {
        absi(a) / absi(b)
    } else {
        -(absi(a) / absi(b))
    }
}

/// Saturating fixed-point addition.
pub open spec fn fxs_add(a: int, b: int) -> int {
    clip(a + b)
}

/// Saturating fixed-point subtraction.
pub open spec fn fxs_sub(a: int, b: int) -> int {
    clip(a - b)
}

/// Saturating fixed-point negation.
pub open spec fn fxs_neg(a: int) -> int {
    clip(-a)
}

/// Saturating fixed-point multiplication: the exact product rescaled by
/// `SCALE` with truncation toward zero.
pub open spec fn fxs_mul(a: int, b: int) -> int {
    clip(tdiv(a * b, SCALE as int))
}

/// Saturating fixed-point division.  A zero divisor saturates to the signed
/// "infinity" matching the dividend's sign, mirroring how IEEE infinities
/// make the slab test's parallel-ray case fall out correctly.
pub open spec fn fxs_div(a: int, b: int) -> int {
    if b == 0 {
        if a > 0 {
            i64::MAX as int
        } else if a < 0 {
            i64::MIN as int
        } else {
            0
        }
    } else {
        clip(tdiv(a * SCALE as int, b))
    }
}

/// Floor of the square root, defined recursively over the integers.
pub open spec fn sqrt_floor(x: int) -> int
    decreases x,
{
    if x < 1 {
        0
    } else {
        let r = sqrt_floor(x - 1);
        if (r + 1) * (r + 1) <= x {
            r + 1
        } else {
            r
        }
    }
}

/// Fixed-point square root: `sqrt(a / SCALE) * SCALE` equals
/// `sqrt(a * SCALE)`, rounded down.  Negative inputs map to zero.
pub open spec fn fxs_sqrt(a: int) -> int {
    if a <= 0 {
        0
    } else {
        sqrt_floor(a * SCALE as int)
    }
}

/// `sqrt_floor(x)` really is the floor of the square root.
pub proof fn lemma_sqrt_floor(x: int)
    requires
        x >= 0,
    ensures
        0 <= sqrt_floor(x),
        sqrt_floor(x) * sqrt_floor(x) <= x,
        x < (sqrt_floor(x) + 1) * (sqrt_floor(x) + 1),
    decreases x,
{
    if x < 1 {
        assert(sqrt_floor(x) == 0);
    } else {
        lemma_sqrt_floor(x - 1);
        let r = sqrt_floor(x - 1);
        if (r + 1) * (r + 1) <= x {
            assert(x <= (r + 1) * (r + 1)) by (nonlinear_arith)
                requires
                    x - 1 < (r + 1) * (r + 1),
            ;
            assert((r + 1 + 1) * (r + 1 + 1) > (r + 1) * (r + 1)) by (nonlinear_arith)
                requires
                    r >= 0,
            ;
        }
    }
}

/// The floor square root is the only value satisfying its two bounds.
pub proof fn lemma_sqrt_floor_unique(x: int, r: int)
    requires
        x >= 0,
        0 <= r,
        r * r <= x,
        x < (r + 1) * (r + 1),
    ensures
        r == sqrt_floor(x),
{
    lemma_sqrt_floor(x);
    let s = sqrt_floor(x);
    assert(r <= s || s <= r);
    if r < s {
        assert((r + 1) * (r + 1) <= s * s) by (nonlinear_arith)
            requires
                0 <= r,
                r < s,
        ;
    }
    if s < r {
        assert((s + 1) * (s + 1) <= r * r) by (nonlinear_arith)
            requires
                0 <= s,
                s < r,
        ;
    }
}

/// The fixed-point square root is never negative.
pub proof fn lemma_fxs_sqrt_nonneg(a: int)
    ensures
        fxs_sqrt(a) >= 0,
{
    if a > 0 {
        assert(a * (SCALE as int) > 0) by (nonlinear_arith)
            requires
                a > 0,
        ;
        lemma_sqrt_floor(a * SCALE as int);
    }
}

/// The magnitude of a product is the product of the magnitudes.
proof fn lemma_abs_mul(a: int, b: int)
    ensures
        absi(a * b) == absi(a) * absi(b),
        (a * b >= 0) == (a == 0 || b == 0 || ((a >= 0) == (b >= 0))),
{
    assert(absi(a * b) == absi(a) * absi(b) && (a * b >= 0) == (a == 0 || b == 0 || ((a >= 0)
        == (b >= 0)))) by (nonlinear_arith);
}

/// Multiplying by zero yields zero (stated because the product inside
/// `fxs_mul` is otherwise opaque to linear reasoning).
pub proof fn lemma_fxs_mul_zero(b: int)
    ensures
        fxs_mul(0, b) == 0,
        fxs_mul(b, 0) == 0,
{
    assert(0 * b == 0 && b * 0 == 0) by (nonlinear_arith);
}

/// Multiplying by one is the identity (stated because the product inside
/// `fxs_mul` is otherwise opaque to linear reasoning).
pub proof fn lemma_fxs_mul_one(b: int)
    requires
        i64::MIN as int <= b <= i64::MAX as int,
    ensures
        fxs_mul(SCALE as int, b) == b,
        fxs_mul(b, SCALE as int) == b,
{
    let s = SCALE as int;
    if b >= 0 {
        assert(s * b >= 0 && absi(s * b) == s * b && (s * b) / s == b) by (nonlinear_arith)
            requires
                b >= 0,
                s == 65536,
        ;
    } else {
        assert(s * b < 0 && absi(s * b) == s * (-b) && (s * (-b)) / s == -b) by (nonlinear_arith)
            requires
                b < 0,
                s == 65536,
        ;
    }
    assert(b * s == s * b) by (nonlinear_arith);
}

/// Multiplying by a factor in `[0, 1]` keeps a nonnegative value between
/// zero and itself.
pub proof fn lemma_mul_unit_bound(a: int, b: int)
    requires
        0 <= a <= SCALE as int,
        0 <= b <= i64::MAX as int,
    ensures
        0 <= fxs_mul(a, b) <= b,
        0 <= fxs_mul(b, a) <= b,
{
    assert(0 <= a * b <= (SCALE as int) * b) by (nonlinear_arith)
        requires
            0 <= a <= SCALE as int,
            0 <= b,
    ;
    assert(0 <= (a * b) / (SCALE as int) <= ((SCALE as int) * b) / (SCALE as int))
        by (nonlinear_arith)
        requires
            0 <= a * b <= (SCALE as int) * b,
    ;
    assert(((SCALE as int) * b) / (SCALE as int) == b) by (nonlinear_arith);
    assert(absi(a * b) == a * b);
    assert(tdiv(a * b, SCALE as int) == (a * b) / (SCALE as int));
    assert(b * a == a * b) by (nonlinear_arith);
}

/// Saturate an `i128` intermediate into `i64`.
fn clip128(w: i128) -> (r: i64)
    ensures
        r as int == clip(w as int),
{
    if w > i64::MAX as i128 {
        i64::MAX
    } else if w < i64::MIN as i128 {
        i64::MIN
    } else {
        w as i64
    }
}

/// Magnitude of an `i64` as a `u64` (total, even at `i64::MIN`).
fn mag64(a: i64) -> (r: u64)
    ensures
        r as int == absi(a as int),
{
    if a < 0 {
        (-(a as i128)) as u64
    } else {
        a as u64
    }
}

/// Saturating fixed-point addition.
pub fn fx_add(a: i64, b: i64) -> (r: i64)
    ensures
        r as int == fxs_add(a as int, b as int),
{
    clip128(a as i128 + b as i128)
}

/// Saturating fixed-point subtraction.
pub fn fx_sub(a: i64, b: i64) -> (r: i64)
    ensures
        r as int == fxs_sub(a as int, b as int),
{
    clip128(a as i128 - b as i128)
}

/// Saturating fixed-point negation.
pub fn fx_neg(a: i64) -> (r: i64)
    ensures
        r as int == fxs_neg(a as int),
{
    clip128(-(a as i128))
}

/// Reassemble a truncated quotient magnitude with its sign and saturate.
fn signed_clip(mag: u128, negative: bool) -> (r: i64)
    requires
        mag <= 0x7fff_ffff_ffff_ffff_ffff_ffff_ffff_ffffu128,
    ensures
        negative ==> r as int == clip(-(mag as int)),
        !negative ==> r as int == clip(mag as int),
{
    if negative {
        clip128(-(mag as i128))
    } else {
        clip128(mag as i128)
    }
}

/// Saturating fixed-point multiplication.
pub fn fx_mul(a: i64, b: i64) -> (r: i64)
    ensures
        r as int == fxs_mul(a as int, b as int),
{
    let negative: bool = (a < 0) != (b < 0) && a != 0 && b != 0;
    let am: u64 = mag64(a);
    let bm: u64 = mag64(b);
    proof {
        assert(am as u128 * bm as u128 <= 0x8000_0000_0000_0000u128 * 0x8000_0000_0000_0000u128)
            by (nonlinear_arith)
            requires
                am <= 0x8000_0000_0000_0000u64,
                bm <= 0x8000_0000_0000_0000u64,
        ;
    }
    let p: u128 = am as u128 * bm as u128;
    let q: u128 = p / (SCALE as u128);
    proof {
        lemma_abs_mul(a as int, b as int);
        assert(p == absi(a as int * b as int));
        assert(q == absi(a as int * b as int) / (SCALE as int));
        assert(q <= p) by (nonlinear_arith)
            requires
                q == p / (SCALE as u128),
                SCALE as u128 >= 1,
        ;
        if negative {
            assert(tdiv(a as int * b as int, SCALE as int) == -(q as int));
        } else {
            assert(tdiv(a as int * b as int, SCALE as int) == q as int);
        }
    }
    signed_clip(q, negative)
}

/// Saturating fixed-point division (zero divisor saturates, see `fxs_div`).
pub fn fx_div(a: i64, b: i64) -> (r: i64)
    ensures
        r as int == fxs_div(a as int, b as int),
{
    if b == 0 {
        if a > 0 {
            i64::MAX
        } else if a < 0 {
            i64::MIN
        } else {
            0
        }
    } else {
        let negative: bool = (a < 0) != (b < 0) && a != 0;
        let am: u64 = mag64(a);
        let bm: u64 = mag64(b);
        proof {
            assert(am as u128 * (SCALE as u128) <= 0x8000_0000_0000_0000u128 * 0x1_0000u128)
                by (nonlinear_arith)
                requires
                    am <= 0x8000_0000_0000_0000u64,
            ;
        }
        let p: u128 = am as u128 * (SCALE as u128);
        let q: u128 = p / (bm as u128);
        proof {
            lemma_abs_mul(a as int, SCALE as int);
            assert(p == absi(a as int * SCALE as int));
            assert(q == absi(a as int * SCALE as int) / absi(b as int));
            assert(q <= p) by (nonlinear_arith)
                requires
                    q == p / (bm as u128),
                    bm >= 1,
            ;
            if negative {
                assert(tdiv(a as int * SCALE as int, b as int) == -(q as int));
            } else {
                assert(tdiv(a as int * SCALE as int, b as int) == q as int);
            }
        }
        signed_clip(q, negative)
    }
}

/// Fixed-point square root, rounding down; zero on negative input.
pub fn fx_sqrt(a: i64) -> (r: i64)
    ensures
        r as int == fxs_sqrt(a as int),
{
    if a <= 0 {
        return 0;
    }
    proof {
        assert(a as u128 * (SCALE as u128) < 0x8000_0000_0000_0000u128 * 0x1_0000u128)
            by (nonlinear_arith)
            requires
                (a as u128) < 0x8000_0000_0000_0000u128,
        ;
    }
    let x: u128 = a as u128 * (SCALE as u128);
    // binary search for the floor square root; x < 2^80 so the root < 2^40
    let mut lo: u128 = 0;
    let mut hi: u128 = 0x100_0000_0000u128;
    proof {
        assert(x < 0x100_0000_0000u128 * 0x100_0000_0000u128) by (nonlinear_arith)
            requires
                x < 0x1_0000_0000_0000_0000_0000u128,
        ;
    }
    while lo + 1 < hi
        invariant
            lo < hi,
            hi <= 0x100_0000_0000u128,
            lo * lo <= x,
            x < hi * hi,
        decreases hi - lo,
    {
        let mid: u128 = lo + (hi - lo) / 2;
        proof {
            assert(mid * mid <= 0x100_0000_0000u128 * 0x100_0000_0000u128) by (nonlinear_arith)
                requires
                    mid <= 0x100_0000_0000u128,
            ;
        }
        if mid * mid <= x {
            lo = mid;
        } else {
            hi = mid;
        }
    }
    proof {
        lemma_sqrt_floor_unique(x as int, lo as int);
    }
    lo as i64
}

/// Euclidean division by a positive divisor: quotient and nonnegative
/// remainder, matching `/` and `%` on spec-level integers.
pub fn fx_floor_div(a: i64, d: i64) -> (qr: (i64, i64))
    requires
        2 <= d <= 0x1_0000_0000i64,
    ensures
        qr.0 as int == a as int / d as int,
        qr.1 as int == a as int % d as int,
        0 <= qr.1 < d,
        a as int == qr.0 as int * d as int + qr.1 as int,
{
    let am: u64 = mag64(a);
    let qm: u64 = am / (d as u64);
    let rm: u64 = am % (d as u64);
    let (q, r): (i64, i64) = if a >= 0 {
        (qm as i64, rm as i64)
    } else if rm == 0 {
        proof {
            assert(qm <= 0x8000_0000_0000_0000u64) by (nonlinear_arith)
                requires
                    qm == am / (d as u64),
                    am <= 0x8000_0000_0000_0000u64,
                    d >= 2,
            ;
        }
        ((-(qm as i128)) as i64, 0)
    } else {
        proof {
            assert(qm < 0x8000_0000_0000_0000u64) by (nonlinear_arith)
                requires
                    qm == am / (d as u64),
                    am <= 0x8000_0000_0000_0000u64,
                    d >= 2,
            ;
        }
        ((-(qm as i128) - 1) as i64, d - rm as i64)
    };
    proof {
        vstd::arithmetic::div_mod::lemma_fundamental_div_mod(am as int, d as int);
        assert(d as int * (am as int / d as int) == (am as int / d as int) * d as int)
            by (nonlinear_arith);
        assert(am as int == qm as int * d as int + rm as int);
        if a >= 0 {
            vstd::arithmetic::div_mod::lemma_fundamental_div_mod_converse(a as int, d as int,
                qm as int, rm as int);
        } else if rm == 0 {
            assert(a as int == (-(qm as int)) * d as int + 0) by (nonlinear_arith)
                requires
                    am == qm * d + rm,
                    rm == 0,
                    a as int == -(am as int),
            ;
            vstd::arithmetic::div_mod::lemma_fundamental_div_mod_converse(a as int, d as int,
                -(qm as int), 0);
        } else {
            assert(a as int == (-(qm as int) - 1) * d as int + (d - rm)) by (nonlinear_arith)
                requires
                    am == qm * d + rm,
                    a as int == -(am as int),
            ;
            vstd::arithmetic::div_mod::lemma_fundamental_div_mod_converse(a as int, d as int,
                -(qm as int) - 1, d as int - rm as int);
        }
    }
    (q, r)
}

/// The smaller of two scalars.
pub fn fx_min(a: i64, b: i64) -> (r: i64)
    ensures
        r as int == if a as int <= b as int {
            a as int
        } else {
            b as int
        },
{
    if a <= b {
        a
    } else {
        b
    }
}

/// The larger of two scalars.
pub fn fx_max(a: i64, b: i64) -> (r: i64)
    ensures
        r as int == if a as int >= b as int {
            a as int
        } else {
            b as int
        },
{
    if a >= b {
        a
    } else {
        b
    }
}

/// Clamp into the unit interval `[0, 1]`.
pub open spec fn clamp01s(x: int) -> int {
    if x < 0 {
        0
    } else if x > SCALE as int {
        SCALE as int
    } else {
        x
    }
}

/// Clamp into the unit interval `[0, 1]`.
pub fn fx_clamp_unit(x: i64) -> (r: i64)
    ensures
        r as int == clamp01s(x as int),
        0 <= r <= SCALE,
{
    if x < 0 {
        0
    } else if x > SCALE {
        SCALE
    } else {
        x
    }
}

/// Where a value sits inside a nonempty interval, as a unit-interval ratio:
/// `(x - lo) / (hi - lo)`, which lies in `[0, 1]` when `x` does.
pub fn fx_unit_ratio(x: i64, lo: i64, hi: i64) -> (r: i64)
    requires
        lo < hi,
        lo <= x <= hi,
    ensures
        r as int == fxs_div(fxs_sub(x as int, lo as int), fxs_sub(hi as int, lo as int)),
        0 <= r <= SCALE,
{
    let num = fx_sub(x, lo);
    let den = fx_sub(hi, lo);
    proof {
        assert(0 <= num <= den && den >= 1);
        assert(absi(num as int * SCALE as int) == num as int * SCALE as int && 0 <= num as int
            * SCALE as int <= den as int * SCALE as int) by (nonlinear_arith)
            requires
                0 <= num <= den,
                SCALE as int > 0,
        ;
        assert((num as int * SCALE as int) / den as int <= (den as int * SCALE as int)
            / den as int && 0 <= (num as int * SCALE as int) / den as int) by (nonlinear_arith)
            requires
                0 <= num as int * SCALE as int <= den as int * SCALE as int,
                den >= 1,
        ;
        assert((den as int * SCALE as int) / den as int == SCALE as int) by (nonlinear_arith)
            requires
                den >= 1,
        ;
    }
    fx_div(num, den)
}

/// Saturating absolute value.
pub fn fx_abs(a: i64) -> (r: i64)
    ensures
        r as int == clip(absi(a as int)),
{
    clip128(if a < 0 {
        -(a as i128)
    } else {
        a as i128
    })
}

/// Embed a small integer as a fixed-point value.
pub fn fx_from_int(n: i32) -> (r: i64)
    ensures
        r as int == n as int * SCALE as int,
{
    n as i64 * SCALE
}

} // verus!
