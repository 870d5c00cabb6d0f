//! Axis-aligned bounding boxes and the slab intersection test.

use vstd::prelude::*;

use crate::fx::{fx_add, fx_from_int, fx_mul, fxs_add, fxs_mul, FX_INF, FX_NEG_INF, SCALE};
use crate::ray::Ray;
use crate::vec3::{vs_div, vs_max, vs_min, vs_sub, Vec3};

verus! {

#[derive(Clone, Copy, Debug, PartialEq, Eq, Structural)]
pub struct AABB {
    pub min: Vec3,
    pub max: Vec3,
}

/// A proper box: the minimum corner below the maximum corner, componentwise.
pub open spec fn bb_wf(b: AABB) -> bool {
    b.min.x <= b.max.x && b.min.y <= b.max.y && b.min.z <= b.max.z
}

/// `outer` encloses `inner`, componentwise.
pub open spec fn bb_contains(outer: AABB, inner: AABB) -> bool {
    outer.min.x <= inner.min.x && outer.min.y <= inner.min.y && outer.min.z <= inner.min.z
        && inner.max.x <= outer.max.x && inner.max.y <= outer.max.y && inner.max.z <= outer.max.z
}

/// The box spanned by two arbitrary corners (the spec twin of `AABB::new`).
pub open spec fn bb_news(a: Vec3, b: Vec3) -> AABB {
    AABB { min: vs_min(a, b), max: vs_max(a, b) }
}

/// The box enclosing two others: piecewise minimum and maximum of the corners.
pub open spec fn combines(a: AABB, b: AABB) -> AABB {
    AABB { min: vs_min(a.min, b.min), max: vs_max(a.max, b.max) }
}

/// The slab test: per axis, the entry time is the later of `t_min` and the
/// nearer slab crossing, the exit time the earlier of `t_max` and the farther
/// crossing; the box is hit when every entry precedes every exit strictly.
/// Division by a zero direction component saturates (see `fxs_div`), which
/// resolves rays parallel to a slab the same way IEEE infinities do.
pub open spec fn bbs_hit(b: AABB, r: Ray, t_min: int, t_max: int) -> bool {
    let temp0 = vs_div(vs_sub(b.min, r.origin), r.dir);
    let temp1 = vs_div(vs_sub(b.max, r.origin), r.dir);
    let t0 = vs_max(vs_min(temp0, temp1), Vec3 { x: t_min as i64, y: t_min as i64, z: t_min as i64 });
    let t1 = vs_min(vs_max(temp0, temp1), Vec3 { x: t_max as i64, y: t_max as i64, z: t_max as i64 });
    !(t1.x <= t0.y || t1.x <= t0.z || t1.y <= t0.x || t1.y <= t0.z || t1.z <= t0.x || t1.z
        <= t0.y)
}

/// Surface area of a box, `2lw + 2lh + 2wh`, in saturating fixed point.
pub open spec fn surface_areas(b: AABB) -> int {
    let l = vs_sub(b.max, b.min).z as int;
    let w = vs_sub(b.max, b.min).x as int;
    let h = vs_sub(b.max, b.min).y as int;
    let two = 2 * SCALE as int;
    fxs_add(
        fxs_add(fxs_mul(fxs_mul(two, l), w), fxs_mul(fxs_mul(two, l), h)),
        fxs_mul(fxs_mul(two, w), h),
    )
}

impl AABB {
    /// Build the box spanned by two arbitrary corners.  Whatever the order of
    /// the inputs, the result satisfies `bb_wf`: each minimum component is
    /// the smaller of the two inputs' components.
    pub fn new(a: Vec3, b: Vec3) -> (r: AABB)
        ensures
            r == bb_news(a, b),
            r.min == vs_min(a, b),
            r.max == vs_max(a, b),
            bb_wf(r),
    {
        AABB { min: a.piecewise_min(b), max: a.piecewise_max(b) }
    }

    /// The empty box: minimum at "plus infinity", maximum at "minus
    /// infinity".  It is the identity element of `combine`, so folding it
    /// over a list of boxes yields exactly their union.
    pub fn default() -> (r: AABB)
        ensures
            r == (AABB {
                min: Vec3 { x: FX_INF, y: FX_INF, z: FX_INF },
                max: Vec3 { x: FX_NEG_INF, y: FX_NEG_INF, z: FX_NEG_INF },
            }),
    {
        AABB {
            min: Vec3::from_scalar(FX_INF),
            max: Vec3::from_scalar(FX_NEG_INF),
        }
    }

    /// True if the ray crosses the box somewhere in `(t_min, t_max)`.
    pub fn hit(&self, r: Ray, t_min: i64, t_max: i64) -> (res: bool)
        ensures
            res == bbs_hit(*self, r, t_min as int, t_max as int),
    {
        let temp0 = self.min.sub(r.origin).div(r.dir);
        let temp1 = self.max.sub(r.origin).div(r.dir);
        let t0 = temp0.piecewise_min(temp1).piecewise_max(Vec3::from_scalar(t_min));
        let t1 = temp0.piecewise_max(temp1).piecewise_min(Vec3::from_scalar(t_max));
        !(t1.x <= t0.y || t1.x <= t0.z || t1.y <= t0.x || t1.y <= t0.z || t1.z <= t0.x || t1.z
            <= t0.y)
    }

    /// The enclosing box of two boxes.
    pub fn combine(&self, other: &AABB) -> (r: AABB)
        ensures
            r == combines(*self, *other),
            r.min == vs_min(self.min, other.min),
            r.max == vs_max(self.max, other.max),
    {
        AABB { min: self.min.piecewise_min(other.min), max: self.max.piecewise_max(other.max) }
    }

    pub fn surface_area(&self) -> (r: i64)
        ensures
            r as int == surface_areas(*self),
    {
        let l = self.max.sub(self.min).z;
        let w = self.max.sub(self.min).x;
        let h = self.max.sub(self.min).y;
        let two = fx_from_int(2);
        fx_add(
            fx_add(fx_mul(fx_mul(two, l), w), fx_mul(fx_mul(two, l), h)),
            fx_mul(fx_mul(two, w), h),
        )
    }
}

/// Combining encloses both arguments.
pub proof fn lemma_combine_contains(a: AABB, b: AABB)
    ensures
        bb_contains(combines(a, b), a),
        bb_contains(combines(a, b), b),
{
}

/// Combining a box with itself changes nothing.
pub proof fn lemma_combine_self(a: AABB)
    ensures
        combines(a, a) == a,
{
}

/// The empty box (`AABB::default`) is the identity of `combine`, so folding
/// it over any list of boxes yields exactly their union.
pub proof fn lemma_combine_identity(b: AABB)
    ensures
        combines(
            AABB {
                min: Vec3 { x: FX_INF, y: FX_INF, z: FX_INF },
                max: Vec3 { x: FX_NEG_INF, y: FX_NEG_INF, z: FX_NEG_INF },
            },
            b,
        ) == b,
{
}

/// Combining does not depend on the order of its arguments.
pub proof fn lemma_combine_commutes(a: AABB, b: AABB)
    ensures
        combines(a, b) == combines(b, a),
{
}

/// A box enclosing two boxes encloses their combination.
pub proof fn lemma_combine_monotone(outer: AABB, a: AABB, b: AABB)
    requires
        bb_contains(outer, a),
        bb_contains(outer, b),
    ensures
        bb_contains(outer, combines(a, b)),
{
}

} // verus!
