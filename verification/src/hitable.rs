//! Primitives, decorators and the intersection protocol.
//!
//! The primitive set is closed, so it is one recursive tagged union; the
//! acceleration node (`BVHNode`) participates in the recursion as the
//! `Hitable::Node` variant.  Deterministic primitives are pinned to their
//! spec twin `hit_specd`; a `Volume` draws a random collision distance, so
//! its contract states what holds of every outcome instead.

use vstd::prelude::*;

use crate::aabb::{bb_news, bbs_hit, AABB};
use crate::axis::Axis;
use crate::fx::{
    fx_add, fx_clamp_unit, fx_div, fx_max, fx_min, fx_mul, fx_neg, fx_sub, fx_unit_ratio, fxs_add,
    fxs_div, fxs_mul, fxs_neg, fxs_sub, clamp01s, FX_INF, FX_NEG_INF, FX_ONE, SCALE,
};
use crate::ray::{ray_at, Ray};
use crate::rng::Rng;
use crate::trig::{asins, atan2s, fx_asin, fx_atan2, fx_neg_log10_unit, FX_HALF_PI, FX_PI};
use crate::vec3::{
    axis_of, crosss, dots, normalizes, vs_add, vs_div_s, vs_min, vs_max, vs_mul_s, vs_neg, vs_sub,
    with_axis, Vec3,
};

verus! {

/// The thickness given to a rectangle's bounding box along its flat axis.
pub const RECT_BB_EPS: i64 = 7;

/// How far past a volume boundary's entry point the exit search starts.
pub const VOL_EPS: i64 = 7;

/// The outcome of a ray-primitive intersection: the ray parameter, surface
/// coordinates, hit point, outward unit normal and the index of the
/// material that produced the hit (into the scene's material list).
#[derive(Clone, Copy, Debug, PartialEq, Eq, Structural)]
pub struct HitRecord {
    pub t: i64,
    pub u: i64,
    pub v: i64,
    pub point: Vec3,
    pub normal: Vec3,
    pub material: usize,
}

/// A sphere given by centre and radius.  A negative radius flips the normal
/// inward (the hollow-glass trick), so no sign constraint is imposed.
#[derive(Clone, Copy, Debug, PartialEq, Eq, Structural)]
pub struct Sphere {
    pub center: Vec3,
    pub radius: i64,
    pub material: usize,
}

/// An axis-aligned rectangle: the plane of `axis_a` and `axis_b` at offset
/// `k` along the remaining axis, spanning `[a0, a1] x [b0, b1]`.
#[derive(Clone, Copy, Debug, PartialEq, Eq, Structural)]
pub struct Rect {
    pub axis_a: Axis,
    pub axis_b: Axis,
    pub a0: i64,
    pub a1: i64,
    pub b0: i64,
    pub b1: i64,
    pub k: i64,
    pub material: usize,
}

/// A triangle of three vertices, one-sided (back faces are culled).
#[derive(Clone, Copy, Debug, PartialEq, Eq, Structural)]
pub struct Triangle {
    pub v0: Vec3,
    pub v1: Vec3,
    pub v2: Vec3,
    pub material: usize,
}

/// Negates the wrapped primitive's normals.
#[derive(Debug)]
pub struct FlipNormal {
    pub obj: Box<Hitable>,
}

/// Shifts the wrapped primitive by a fixed offset.
#[derive(Debug)]
pub struct Translate {
    pub obj: Box<Hitable>,
    pub offset: Vec3,
}

/// Rotates the wrapped primitive about one axis; the sine and cosine of the
/// angle and the rotated bounding box are fixed at construction.
#[derive(Debug)]
pub struct Rotate {
    pub obj: Box<Hitable>,
    pub axis: Axis,
    pub sin_theta: i64,
    pub cos_theta: i64,
    pub bb: AABB,
}

/// A constant-density participating medium bounded by another primitive.
#[derive(Debug)]
pub struct Volume {
    pub density: i64,
    pub boundary: Box<Hitable>,
    pub phase_function: usize,
}

/// A rectangular box assembled from six rectangles.
#[derive(Debug)]
pub struct Prism {
    pub faces: BVHNode,
}

/// A triangle soup behind its own acceleration tree.
#[derive(Debug)]
pub struct Mesh {
    pub faces: BVHNode,
}

/// One node of the bounding-volume hierarchy: an enclosing box and one or
/// two children.  The left child is always present.
#[derive(Debug)]
pub struct BVHNode {
    pub bb: AABB,
    pub left: Option<Box<Hitable>>,
    pub right: Option<Box<Hitable>>,
}

#[derive(Debug)]
pub enum Hitable {
    Sphere(Sphere),
    Rect(Rect),
    Triangle(Triangle),
    FlipNormal(FlipNormal),
    Translate(Translate),
    Rotate(Rotate),
    Volume(Volume),
    Prism(Prism),
    Mesh(Mesh),
    Node(BVHNode),
}

/// A flat list of primitives answered by brute-force linear scan.
#[derive(Debug)]
pub struct HitableGroup {
    pub items: Vec<Hitable>,
}

// ---------------------------------------------------------------------------
// validity

/// Validity of a primitive: rectangle spans are nonempty and ordered, volume
/// densities positive, and every inner tree node carries its left child and
/// a box enclosing its children's boxes.
pub open spec fn h_wf(h: Hitable) -> bool
    decreases h,
{
    match h {
        Hitable::Sphere(_) => true,
        Hitable::Rect(rc) => rc.axis_a != rc.axis_b && rc.a0 < rc.a1 && rc.b0 < rc.b1,
        Hitable::Triangle(_) => true,
        Hitable::FlipNormal(f) => h_wf(*f.obj),
        Hitable::Translate(tr) => h_wf(*tr.obj),
        Hitable::Rotate(ro) => h_wf(*ro.obj),
        Hitable::Volume(vo) => vo.density > 0 && h_wf(*vo.boundary),
        Hitable::Prism(p) => node_wf(p.faces),
        Hitable::Mesh(m) => node_wf(m.faces),
        Hitable::Node(n) => node_wf(n),
    }
}

/// Validity of a tree node: the left child exists, children are valid, and
/// the node's box encloses each child's box.
pub open spec fn node_wf(n: BVHNode) -> bool
    decreases n,
{
    &&& n.left is Some
    &&& match n.left {
        Option::Some(l) => h_wf(*l) && crate::aabb::bb_contains(n.bb, get_bbs(*l)),
        Option::None => false,
    }
    &&& match n.right {
        Option::Some(r) => h_wf(*r) && crate::aabb::bb_contains(n.bb, get_bbs(*r)),
        Option::None => true,
    }
}

/// True when intersecting the primitive draws no randomness (no volume
/// anywhere inside), so its result is a function of the ray alone.
pub open spec fn rng_free(h: Hitable) -> bool
    decreases h,
{
    match h {
        Hitable::Sphere(_) => true,
        Hitable::Rect(_) => true,
        Hitable::Triangle(_) => true,
        Hitable::FlipNormal(f) => rng_free(*f.obj),
        Hitable::Translate(tr) => rng_free(*tr.obj),
        Hitable::Rotate(ro) => rng_free(*ro.obj),
        Hitable::Volume(_) => false,
        Hitable::Prism(p) => node_rng_free(p.faces),
        Hitable::Mesh(m) => node_rng_free(m.faces),
        Hitable::Node(n) => node_rng_free(n),
    }
}

/// `rng_free` over a tree node's children.
pub open spec fn node_rng_free(n: BVHNode) -> bool
    decreases n,
{
    &&& match n.left {
        Option::Some(l) => rng_free(*l),
        Option::None => true,
    }
    &&& match n.right {
        Option::Some(r) => rng_free(*r),
        Option::None => true,
    }
}

/// Whether a material index occurs anywhere in a primitive.
pub open spec fn mat_in(h: Hitable, id: usize) -> bool
    decreases h,
{
    match h {
        Hitable::Sphere(s) => id == s.material,
        Hitable::Rect(rc) => id == rc.material,
        Hitable::Triangle(t) => id == t.material,
        Hitable::FlipNormal(f) => mat_in(*f.obj, id),
        Hitable::Translate(tr) => mat_in(*tr.obj, id),
        Hitable::Rotate(ro) => mat_in(*ro.obj, id),
        Hitable::Volume(vo) => id == vo.phase_function || mat_in(*vo.boundary, id),
        Hitable::Prism(p) => node_mat_in(p.faces, id),
        Hitable::Mesh(m) => node_mat_in(m.faces, id),
        Hitable::Node(n) => node_mat_in(n, id),
    }
}

/// Whether a material index occurs under a tree node.
pub open spec fn node_mat_in(n: BVHNode, id: usize) -> bool
    decreases n,
{
    ||| match n.left {
        Option::Some(l) => mat_in(*l, id),
        Option::None => false,
    }
    ||| match n.right {
        Option::Some(r) => mat_in(*r, id),
        Option::None => false,
    }
}

/// Every material index in the primitive lies below `n` (so the scene's
/// material list can be indexed safely).
pub open spec fn h_mats_below(h: Hitable, n: int) -> bool {
    forall|id: usize| mat_in(h, id) ==> (id as int) < n
}

/// A record that respects the query window and carries unit-interval
/// surface coordinates.
pub open spec fn rec_in_window(rec: HitRecord, t_min: int, t_max: int) -> bool {
    t_min <= rec.t as int <= t_max && 0 <= rec.u <= FX_ONE && 0 <= rec.v <= FX_ONE
}

// ---------------------------------------------------------------------------
// bounding boxes

/// The bounding box each primitive reports (spec twin of `get_bb`).
pub open spec fn get_bbs(h: Hitable) -> AABB
    decreases h,
{
    match h {
        Hitable::Sphere(s) => bb_news(
            vs_sub(s.center, Vec3 { x: s.radius, y: s.radius, z: s.radius }),
            vs_add(s.center, Vec3 { x: s.radius, y: s.radius, z: s.radius }),
        ),
        Hitable::Rect(rc) => rect_bbs(rc),
        Hitable::Triangle(t) => bb_news(
            vs_min(vs_min(t.v0, t.v1), t.v2),
            vs_max(vs_max(t.v0, t.v1), t.v2),
        ),
        Hitable::FlipNormal(f) => get_bbs(*f.obj),
        Hitable::Translate(tr) => bb_news(
            vs_add(get_bbs(*tr.obj).min, tr.offset),
            vs_add(get_bbs(*tr.obj).max, tr.offset),
        ),
        Hitable::Rotate(ro) => ro.bb,
        Hitable::Volume(vo) => get_bbs(*vo.boundary),
        Hitable::Prism(p) => p.faces.bb,
        Hitable::Mesh(m) => m.faces.bb,
        Hitable::Node(n) => n.bb,
    }
}

/// A rectangle's box: its spans on the two free axes, and a small epsilon
/// thickness along the flat axis (a zero-thickness box would break the
/// slab test's strict comparisons).
pub open spec fn rect_bbs(rc: Rect) -> AABB {
    let other = other_axis_spec(rc.axis_a, rc.axis_b);
    bb_news(
        with_axis(
            with_axis(
                with_axis(Vec3 { x: 0i64, y: 0i64, z: 0i64 }, rc.axis_a, rc.a0),
                rc.axis_b,
                rc.b0,
            ),
            other,
            fxs_sub(rc.k as int, RECT_BB_EPS as int) as i64,
        ),
        with_axis(
            with_axis(
                with_axis(Vec3 { x: 0i64, y: 0i64, z: 0i64 }, rc.axis_a, rc.a1),
                rc.axis_b,
                rc.b1,
            ),
            other,
            fxs_add(rc.k as int, RECT_BB_EPS as int) as i64,
        ),
    )
}

/// The axis different from two distinct axes.
pub open spec fn other_axis_spec(a: Axis, b: Axis) -> Axis {
    if (a == Axis::X && b == Axis::Y) || (a == Axis::Y && b == Axis::X) {
        Axis::Z
    } else if (a == Axis::Y && b == Axis::Z) || (a == Axis::Z && b == Axis::Y) {
        Axis::X
    } else {
        Axis::Y
    }
}

// ---------------------------------------------------------------------------
// intersection, spec side

/// Which of two optional hits a tree node reports: the closer one, the
/// right-hand one on an exact tie.
pub open spec fn combine_hits(a: Option<HitRecord>, b: Option<HitRecord>) -> Option<HitRecord> {
    match (a, b) {
        (Option::None, Option::None) => Option::None,
        (Option::Some(ha), Option::None) => Option::Some(ha),
        (Option::None, Option::Some(hb)) => Option::Some(hb),
        (Option::Some(ha), Option::Some(hb)) => if ha.t < hb.t {
            Option::Some(ha)
        } else {
            Option::Some(hb)
        },
    }
}

/// The sphere's surface coordinates at an outward unit normal, from its
/// spherical angles, clamped into the unit square.
pub open spec fn sphere_uvs(p: Vec3) -> (int, int) {
    let phi = atan2s(p.z as int, p.x as int);
    let ys = if p.y < -FX_ONE {
        -FX_ONE as int
    } else if p.y > FX_ONE {
        FX_ONE as int
    } else {
        p.y as int
    };
    let theta = asins(ys);
    (
        clamp01s(
            fxs_sub(
                SCALE as int,
                fxs_div(fxs_add(phi, FX_PI as int), 2 * FX_PI as int),
            ),
        ),
        clamp01s(fxs_div(fxs_add(theta, FX_HALF_PI as int), FX_PI as int)),
    )
}

/// The record a sphere hit at parameter `t` yields.
pub open spec fn sphere_rec(s: Sphere, r: Ray, t: int) -> HitRecord {
    let point = ray_at(r, t);
    let normal = vs_div_s(vs_sub(point, s.center), s.radius as int);
    let uv = sphere_uvs(normal);
    HitRecord {
        t: t as i64,
        u: uv.0 as i64,
        v: uv.1 as i64,
        point,
        normal,
        material: s.material,
    }
}

/// The sphere intersection: solve the quadratic for the ray-centre offset,
/// try the nearer root, then the farther, each against the open window.
pub open spec fn sphere_hits(s: Sphere, r: Ray, t_min: int, t_max: int) -> Option<HitRecord> {
    let oc = vs_sub(r.origin, s.center);
    let a = dots(r.dir, r.dir);
    let b = fxs_mul(2 * SCALE as int, dots(oc, r.dir));
    let c = fxs_sub(dots(oc, oc), fxs_mul(s.radius as int, s.radius as int));
    let disc = fxs_sub(fxs_mul(b, b), fxs_mul(fxs_mul(4 * SCALE as int, a), c));
    if disc > 0 {
        let root = crate::fx::fxs_sqrt(disc);
        let t1 = fxs_div(fxs_sub(fxs_neg(b), root), fxs_mul(2 * SCALE as int, a));
        let t2 = fxs_div(fxs_add(fxs_neg(b), root), fxs_mul(2 * SCALE as int, a));
        if t_min < t1 && t1 < t_max {
            Option::Some(sphere_rec(s, r, t1))
        } else if t_min < t2 && t2 < t_max {
            Option::Some(sphere_rec(s, r, t2))
        } else {
            Option::None
        }
    } else {
        Option::None
    }
}

/// The rectangle intersection: solve for the flat axis, bound-check the two
/// free axes, interpolate surface coordinates across the spans.
pub open spec fn rect_hits(rc: Rect, r: Ray, t_min: int, t_max: int) -> Option<HitRecord> {
    let other = other_axis_spec(rc.axis_a, rc.axis_b);
    let t = fxs_div(
        fxs_sub(rc.k as int, axis_of(r.origin, other) as int),
        axis_of(r.dir, other) as int,
    );
    if t < t_min || t > t_max {
        Option::None
    } else {
        let a = fxs_add(
            axis_of(r.origin, rc.axis_a) as int,
            fxs_mul(t, axis_of(r.dir, rc.axis_a) as int),
        );
        let b = fxs_add(
            axis_of(r.origin, rc.axis_b) as int,
            fxs_mul(t, axis_of(r.dir, rc.axis_b) as int),
        );
        if a < rc.a0 || a > rc.a1 || b < rc.b0 || b > rc.b1 {
            Option::None
        } else {
            Option::Some(
                HitRecord {
                    t: t as i64,
                    u: fxs_div(fxs_sub(a, rc.a0 as int), fxs_sub(rc.a1 as int, rc.a0 as int)) as i64,
                    v: fxs_div(fxs_sub(b, rc.b0 as int), fxs_sub(rc.b1 as int, rc.b0 as int)) as i64,
                    point: ray_at(r, t),
                    normal: with_axis(Vec3 { x: 0i64, y: 0i64, z: 0i64 }, other, FX_ONE),
                    material: rc.material,
                },
            )
        }
    }
}

/// The Moeller-Trumbore triangle intersection with one-sided culling: a
/// nonpositive determinant (parallel or back-facing) is a miss, then the
/// barycentric coordinates and the parameter are checked in turn.
pub open spec fn tri_hits(tr: Triangle, r: Ray, t_min: int, t_max: int) -> Option<HitRecord> {
    let edge1 = vs_sub(tr.v1, tr.v0);
    let edge2 = vs_sub(tr.v2, tr.v0);
    let pvec = crosss(r.dir, edge2);
    let det = dots(edge1, pvec);
    if det <= 0 {
        Option::None
    } else {
        let tvec = vs_sub(r.origin, tr.v0);
        let u = fxs_div(dots(tvec, pvec), det);
        if u <= 0 || u >= SCALE as int {
            Option::None
        } else {
            let qvec = crosss(tvec, edge1);
            let v = fxs_div(dots(r.dir, qvec), det);
            if v <= 0 || u + v >= SCALE as int {
                Option::None
            } else {
                let t = fxs_div(dots(edge2, qvec), det);
                if t < t_min || t > t_max {
                    Option::None
                } else {
                    Option::Some(
                        HitRecord {
                            t: t as i64,
                            u: u as i64,
                            v: v as i64,
                            point: vs_add(
                                vs_add(tr.v0, vs_mul_s(edge1, u)),
                                vs_mul_s(edge2, v),
                            ),
                            normal: normalizes(crosss(edge1, edge2)),
                            material: tr.material,
                        },
                    )
                }
            }
        }
    }
}

/// Rotate a vector into a decorator's object space (by minus the angle).
pub open spec fn rot_ins(v: Vec3, aa: Axis, ab: Axis, sin_t: int, cos_t: int) -> Vec3 {
    let va = axis_of(v, aa) as int;
    let vb = axis_of(v, ab) as int;
    with_axis(
        with_axis(v, aa, fxs_sub(fxs_mul(cos_t, va), fxs_mul(sin_t, vb)) as i64),
        ab,
        fxs_add(fxs_mul(sin_t, va), fxs_mul(cos_t, vb)) as i64,
    )
}

/// Rotate a vector back out of object space (by plus the angle).
pub open spec fn rot_outs(v: Vec3, aa: Axis, ab: Axis, sin_t: int, cos_t: int) -> Vec3 {
    let va = axis_of(v, aa) as int;
    let vb = axis_of(v, ab) as int;
    with_axis(
        with_axis(v, aa, fxs_add(fxs_mul(cos_t, va), fxs_mul(sin_t, vb)) as i64),
        ab,
        fxs_sub(fxs_mul(cos_t, vb), fxs_mul(sin_t, va)) as i64,
    )
}

/// The deterministic intersection semantics of a primitive.  A `Volume`
/// draws randomness, so it has no deterministic meaning and maps to `None`
/// here; `Hitable::hit` is pinned to this function only on `rng_free`
/// primitives.  (Opaque: its definition is large, so proofs that unfold it
/// reveal it explicitly.)
#[verifier::opaque]
pub open spec fn hit_specd(h: Hitable, r: Ray, t_min: int, t_max: int) -> Option<HitRecord>
    decreases h,
{
    match h {
        Hitable::Sphere(s) => sphere_hits(s, r, t_min, t_max),
        Hitable::Rect(rc) => rect_hits(rc, r, t_min, t_max),
        Hitable::Triangle(t) => tri_hits(t, r, t_min, t_max),
        Hitable::FlipNormal(f) => match hit_specd(*f.obj, r, t_min, t_max) {
            Option::Some(rec) => Option::Some(HitRecord { normal: vs_neg(rec.normal), ..rec }),
            Option::None => Option::None,
        },
        Hitable::Translate(tr) => {
            let moved = Ray { origin: vs_sub(r.origin, tr.offset), dir: r.dir };
            match hit_specd(*tr.obj, moved, t_min, t_max) {
                Option::Some(rec) => Option::Some(
                    HitRecord { point: vs_add(rec.point, tr.offset), ..rec },
                ),
                Option::None => Option::None,
            }
        },
        Hitable::Rotate(ro) => {
            let aa = other_two_a(ro.axis);
            let ab = other_two_b(ro.axis);
            let rotated = Ray {
                origin: rot_ins(r.origin, aa, ab, ro.sin_theta as int, ro.cos_theta as int),
                dir: rot_ins(r.dir, aa, ab, ro.sin_theta as int, ro.cos_theta as int),
            };
            match hit_specd(*ro.obj, rotated, t_min, t_max) {
                Option::Some(rec) => Option::Some(
                    HitRecord {
                        point: rot_outs(rec.point, aa, ab, ro.sin_theta as int, ro.cos_theta as int),
                        normal: rot_outs(
                            rec.normal,
                            aa,
                            ab,
                            ro.sin_theta as int,
                            ro.cos_theta as int,
                        ),
                        ..rec
                    },
                ),
                Option::None => Option::None,
            }
        },
        Hitable::Volume(_) => Option::None,
        Hitable::Prism(p) => node_hit_specd(p.faces, r, t_min, t_max),
        Hitable::Mesh(m) => node_hit_specd(m.faces, r, t_min, t_max),
        Hitable::Node(n) => node_hit_specd(n, r, t_min, t_max),
    }
}

/// The first of `Axis::other_two`.
pub open spec fn other_two_a(a: Axis) -> Axis {
    match a {
        Axis::X => Axis::Y,
        Axis::Y => Axis::X,
        Axis::Z => Axis::X,
    }
}

/// The second of `Axis::other_two`.
pub open spec fn other_two_b(a: Axis) -> Axis {
    match a {
        Axis::X => Axis::Z,
        Axis::Y => Axis::Z,
        Axis::Z => Axis::Y,
    }
}

/// Tree traversal: prune when the node's box is missed, otherwise query
/// both children and keep the closer hit.  (Opaque, like `hit_specd`.)
#[verifier::opaque]
pub open spec fn node_hit_specd(n: BVHNode, r: Ray, t_min: int, t_max: int) -> Option<HitRecord>
    decreases n,
{
    if !bbs_hit(n.bb, r, t_min, t_max) {
        Option::None
    } else {
        let hl = match n.left {
            Option::Some(l) => hit_specd(*l, r, t_min, t_max),
            Option::None => Option::None,
        };
        let hr = match n.right {
            Option::Some(rgt) => hit_specd(*rgt, r, t_min, t_max),
            Option::None => Option::None,
        };
        combine_hits(hl, hr)
    }
}

// ---------------------------------------------------------------------------
// intersection, executable side

impl Sphere {
    pub fn new(c: Vec3, r: i64, material: usize) -> (s: Sphere)
        ensures
            s == (Sphere { center: c, radius: r, material }),
    {
        Sphere { center: c, radius: r, material }
    }

    /// Spherical surface coordinates of an outward unit normal.
    pub fn get_uv(&self, p: Vec3) -> (uv: (i64, i64))
        ensures
            (uv.0 as int, uv.1 as int) == sphere_uvs(p),
            0 <= uv.0 <= FX_ONE && 0 <= uv.1 <= FX_ONE,
    {
        let phi = fx_atan2(p.z, p.x);
        let ys = fx_max(-FX_ONE, fx_min(p.y, FX_ONE));
        let theta = fx_asin(ys);
        let u = fx_clamp_unit(fx_sub(FX_ONE, fx_div(fx_add(phi, FX_PI), 2 * FX_PI)));
        let v = fx_clamp_unit(fx_div(fx_add(theta, FX_HALF_PI), FX_PI));
        (u, v)
    }

    pub fn hit(&self, r: Ray, t_min: i64, t_max: i64) -> (res: Option<HitRecord>)
        ensures
            res == sphere_hits(*self, r, t_min as int, t_max as int),
            res matches Some(rec) ==> rec_in_window(rec, t_min as int, t_max as int)
                && rec.material == self.material,
    {
        let oc = r.origin.sub(self.center);
        let a = r.dir.dot(&r.dir);
        let b = fx_mul(2 * SCALE, oc.dot(&r.dir));
        let c = fx_sub(oc.dot(&oc), fx_mul(self.radius, self.radius));
        let disc = fx_sub(fx_mul(b, b), fx_mul(fx_mul(4 * SCALE, a), c));
        if disc > 0 {
            let root = crate::fx::fx_sqrt(disc);
            let t1 = fx_div(fx_sub(fx_neg(b), root), fx_mul(2 * SCALE, a));
            if t_min < t1 && t1 < t_max {
                return Some(self.make_rec(r, t1));
            }
            let t2 = fx_div(fx_add(fx_neg(b), root), fx_mul(2 * SCALE, a));
            if t_min < t2 && t2 < t_max {
                return Some(self.make_rec(r, t2));
            }
            None
        } else {
            None
        }
    }

    /// Assemble the record for a root accepted by the window test.
    fn make_rec(&self, r: Ray, t: i64) -> (rec: HitRecord)
        ensures
            rec == sphere_rec(*self, r, t as int),
            rec.t == t,
            rec.material == self.material,
            0 <= rec.u <= FX_ONE && 0 <= rec.v <= FX_ONE,
    {
        let point = r.point_at_param(t);
        let normal = point.sub(self.center).div_s(self.radius);
        let (u, v) = self.get_uv(normal);
        HitRecord { t, u, v, point, normal, material: self.material }
    }

    pub fn get_bb(&self) -> (bb: AABB)
        ensures
            bb == get_bbs(Hitable::Sphere(*self)),
    {
        AABB::new(
            self.center.sub(Vec3::from_scalar(self.radius)),
            self.center.add(Vec3::from_scalar(self.radius)),
        )
    }
}

impl Rect {
    /// A rectangle in the XY plane at `z = k`.
    pub fn xy(x0: i64, y0: i64, x1: i64, y1: i64, k: i64, material: usize) -> (r: Rect)
        requires
            x0 < x1,
            y0 < y1,
        ensures
            r == (Rect {
                axis_a: Axis::X,
                axis_b: Axis::Y,
                a0: x0,
                a1: x1,
                b0: y0,
                b1: y1,
                k,
                material,
            }),
            h_wf(Hitable::Rect(r)),
    {
        Rect { axis_a: Axis::X, axis_b: Axis::Y, a0: x0, a1: x1, b0: y0, b1: y1, k, material }
    }

    /// A rectangle in the YZ plane at `x = k`.
    pub fn yz(y0: i64, z0: i64, y1: i64, z1: i64, k: i64, material: usize) -> (r: Rect)
        requires
            y0 < y1,
            z0 < z1,
        ensures
            r == (Rect {
                axis_a: Axis::Y,
                axis_b: Axis::Z,
                a0: y0,
                a1: y1,
                b0: z0,
                b1: z1,
                k,
                material,
            }),
            h_wf(Hitable::Rect(r)),
    {
        Rect { axis_a: Axis::Y, axis_b: Axis::Z, a0: y0, a1: y1, b0: z0, b1: z1, k, material }
    }

    /// A rectangle in the XZ plane at `y = k`.
    pub fn xz(x0: i64, z0: i64, x1: i64, z1: i64, k: i64, material: usize) -> (r: Rect)
        requires
            x0 < x1,
            z0 < z1,
        ensures
            r == (Rect {
                axis_a: Axis::X,
                axis_b: Axis::Z,
                a0: x0,
                a1: x1,
                b0: z0,
                b1: z1,
                k,
                material,
            }),
            h_wf(Hitable::Rect(r)),
    {
        Rect { axis_a: Axis::X, axis_b: Axis::Z, a0: x0, a1: x1, b0: z0, b1: z1, k, material }
    }

    pub fn hit(&self, r: Ray, t_min: i64, t_max: i64) -> (res: Option<HitRecord>)
        requires
            h_wf(Hitable::Rect(*self)),
        ensures
            res == rect_hits(*self, r, t_min as int, t_max as int),
            res matches Some(rec) ==> rec_in_window(rec, t_min as int, t_max as int)
                && rec.material == self.material,
    {
        let other = Axis::other(self.axis_a, self.axis_b);
        proof {
            assert(other == other_axis_spec(self.axis_a, self.axis_b));
        }
        let t = fx_div(fx_sub(self.k, r.origin.get_axis(other)), r.dir.get_axis(other));
        if t < t_min || t > t_max {
            return None;
        }
        let a = fx_add(r.origin.get_axis(self.axis_a), fx_mul(t, r.dir.get_axis(self.axis_a)));
        let b = fx_add(r.origin.get_axis(self.axis_b), fx_mul(t, r.dir.get_axis(self.axis_b)));
        if a < self.a0 || a > self.a1 || b < self.b0 || b > self.b1 {
            return None;
        }
        Some(
            HitRecord {
                t,
                u: fx_unit_ratio(a, self.a0, self.a1),
                v: fx_unit_ratio(b, self.b0, self.b1),
                point: r.point_at_param(t),
                normal: Vec3::zero().set_axis(other, FX_ONE),
                material: self.material,
            },
        )
    }

    pub fn get_bb(&self) -> (bb: AABB)
        requires
            h_wf(Hitable::Rect(*self)),
        ensures
            bb == get_bbs(Hitable::Rect(*self)),
    {
        let other = Axis::other(self.axis_a, self.axis_b);
        proof {
            assert(other == other_axis_spec(self.axis_a, self.axis_b));
        }
        AABB::new(
            Vec3::zero().set_axis(self.axis_a, self.a0).set_axis(self.axis_b, self.b0).set_axis(
                other,
                fx_sub(self.k, RECT_BB_EPS),
            ),
            Vec3::zero().set_axis(self.axis_a, self.a1).set_axis(self.axis_b, self.b1).set_axis(
                other,
                fx_add(self.k, RECT_BB_EPS),
            ),
        )
    }
}

impl Triangle {
    pub fn new(v0: Vec3, v1: Vec3, v2: Vec3, material: usize) -> (t: Triangle)
        ensures
            t == (Triangle { v0, v1, v2, material }),
    {
        Triangle { v0, v1, v2, material }
    }

    pub fn hit(&self, r: Ray, t_min: i64, t_max: i64) -> (res: Option<HitRecord>)
        ensures
            res == tri_hits(*self, r, t_min as int, t_max as int),
            res matches Some(rec) ==> rec_in_window(rec, t_min as int, t_max as int)
                && rec.material == self.material,
    {
        let edge1 = self.v1.sub(self.v0);
        let edge2 = self.v2.sub(self.v0);
        let pvec = r.dir.cross(&edge2);
        let det = edge1.dot(&pvec);
        // a nonpositive determinant is a parallel ray or a back face (any
        // parallelism epsilon below one raw unit rounds to zero here)
        if det <= 0 {
            return None;
        }
        let tvec = r.origin.sub(self.v0);
        let u = fx_div(tvec.dot(&pvec), det);
        if u <= 0 || u >= SCALE {
            return None;
        }
        let qvec = tvec.cross(&edge1);
        let v = fx_div(r.dir.dot(&qvec), det);
        if v <= 0 || v >= SCALE || u + v >= SCALE {
            return None;
        }
        let t = fx_div(edge2.dot(&qvec), det);
        if t < t_min || t > t_max {
            return None;
        }
        Some(
            HitRecord {
                t,
                u,
                v,
                point: self.v0.add(edge1.mul_s(u)).add(edge2.mul_s(v)),
                normal: edge1.cross(&edge2).normalize(),
                material: self.material,
            },
        )
    }

    pub fn get_bb(&self) -> (bb: AABB)
        ensures
            bb == get_bbs(Hitable::Triangle(*self)),
    {
        let min = self.v0.piecewise_min(self.v1).piecewise_min(self.v2);
        let max = self.v0.piecewise_max(self.v1).piecewise_max(self.v2);
        AABB::new(min, max)
    }
}

impl FlipNormal {
    pub fn new(obj: Hitable) -> (r: FlipNormal)
        ensures
            *r.obj == obj,
    {
        FlipNormal { obj: Box::new(obj) }
    }
}

impl Translate {
    pub fn new(obj: Hitable, offset: Vec3) -> (r: Translate)
        ensures
            *r.obj == obj && r.offset == offset,
    {
        Translate { obj: Box::new(obj), offset }
    }
}

/// The angle of a rotation decorator in radian raw units:
/// `angle * pi / 180` for an angle given in fixed-point degrees.
pub open spec fn rotate_rads(angle: int) -> int {
    fxs_div(fxs_mul(angle, FX_PI as int), 180 * SCALE as int)
}

/// The box enclosing the first `n` corners of the child's box, each rotated
/// out of object space (the spec twin of the corner loop in `Rotate::new`);
/// corner `k` picks max over min per axis by the bits of `k`.
pub open spec fn rotate_corners_bbs(
    child: AABB,
    aa: Axis,
    ab: Axis,
    sin_t: int,
    cos_t: int,
    n: int,
) -> AABB
    decreases n,
{
    if n <= 0 {
        AABB {
            min: Vec3 { x: FX_INF, y: FX_INF, z: FX_INF },
            max: Vec3 { x: FX_NEG_INF, y: FX_NEG_INF, z: FX_NEG_INF },
        }
    } else {
        let k = n - 1;
        let corner = Vec3 {
            x: if k % 2 == 1 {
                child.max.x
            } else {
                child.min.x
            },
            y: if (k / 2) % 2 == 1 {
                child.max.y
            } else {
                child.min.y
            },
            z: if (k / 4) % 2 == 1 {
                child.max.z
            } else {
                child.min.z
            },
        };
        let rotated = rot_outs(corner, aa, ab, sin_t, cos_t);
        crate::aabb::combines(
            rotate_corners_bbs(child, aa, ab, sin_t, cos_t, k),
            bb_news(rotated, rotated),
        )
    }
}

impl Rotate {
    /// Wrap a primitive in a rotation about `axis` by `angle` (fixed-point
    /// degrees).  The stored sine and cosine are those of the angle in
    /// radians, and the stored box encloses all eight corners of the child's
    /// box rotated out of object space.
    pub fn new(obj: Hitable, axis: Axis, angle: i64) -> (r: Rotate)
        requires
            h_wf(obj),
            -0x1_0000_0000i64 <= angle <= 0x1_0000_0000i64,
        ensures
            *r.obj == obj && r.axis == axis,
            h_wf(Hitable::Rotate(r)),
            r.sin_theta as int == crate::trig::sins(rotate_rads(angle as int)),
            r.cos_theta as int == crate::trig::sins(
                fxs_add(rotate_rads(angle as int), FX_HALF_PI as int),
            ),
            r.bb == rotate_corners_bbs(
                get_bbs(obj),
                other_two_a(axis),
                other_two_b(axis),
                r.sin_theta as int,
                r.cos_theta as int,
                8,
            ),
    {
        let rad = fx_div(fx_mul(angle, FX_PI), 180 * SCALE);
        let sin_theta = crate::trig::fx_sin(rad);
        let cos_theta = crate::trig::fx_sin(fx_add(rad, FX_HALF_PI));
        let child_bb = hitable_bb(&obj);
        let (aa, ab) = Axis::other_two(axis);
        proof {
            assert(aa == other_two_a(axis) && ab == other_two_b(axis));
        }
        let mut bb = AABB::default();
        let mut corner: usize = 0;
        while corner < 8
            invariant
                0 <= corner <= 8,
                child_bb == get_bbs(obj),
                bb == rotate_corners_bbs(
                    child_bb,
                    aa,
                    ab,
                    sin_theta as int,
                    cos_theta as int,
                    corner as int,
                ),
            decreases 8 - corner,
        {
            let cx = if corner % 2 == 1 {
                child_bb.max.x
            } else {
                child_bb.min.x
            };
            let cy = if (corner / 2) % 2 == 1 {
                child_bb.max.y
            } else {
                child_bb.min.y
            };
            let cz = if (corner / 4) % 2 == 1 {
                child_bb.max.z
            } else {
                child_bb.min.z
            };
            let point = Vec3 { x: cx, y: cy, z: cz };
            let rotated = rot_out_exec(point, aa, ab, sin_theta, cos_theta);
            bb = bb.combine(&AABB::new(rotated, rotated));
            corner = corner + 1;
        }
        Rotate { obj: Box::new(obj), axis, sin_theta, cos_theta, bb }
    }
}

/// Rotate a vector into object space (the exec twin of `rot_ins`).
fn rot_in_exec(v: Vec3, aa: Axis, ab: Axis, sin_t: i64, cos_t: i64) -> (r: Vec3)
    ensures
        r == rot_ins(v, aa, ab, sin_t as int, cos_t as int),
{
    let va = v.get_axis(aa);
    let vb = v.get_axis(ab);
    v.set_axis(aa, fx_sub(fx_mul(cos_t, va), fx_mul(sin_t, vb))).set_axis(
        ab,
        fx_add(fx_mul(sin_t, va), fx_mul(cos_t, vb)),
    )
}

/// Rotate a vector out of object space (the exec twin of `rot_outs`).
fn rot_out_exec(v: Vec3, aa: Axis, ab: Axis, sin_t: i64, cos_t: i64) -> (r: Vec3)
    ensures
        r == rot_outs(v, aa, ab, sin_t as int, cos_t as int),
{
    let va = v.get_axis(aa);
    let vb = v.get_axis(ab);
    v.set_axis(aa, fx_add(fx_mul(cos_t, va), fx_mul(sin_t, vb))).set_axis(
        ab,
        fx_sub(fx_mul(cos_t, vb), fx_mul(sin_t, va)),
    )
}

impl Volume {
    pub fn new(density: i64, boundary: Hitable, phase_function: usize) -> (r: Volume)
        requires
            density > 0,
        ensures
            r.density == density && *r.boundary == boundary && r.phase_function
                == phase_function,
    {
        Volume { density, boundary: Box::new(boundary), phase_function }
    }
}

/// A flipped wrapper around exactly the given primitive.
pub open spec fn flip_of(h: Hitable, inner: Hitable) -> bool {
    h matches Hitable::FlipNormal(f) && *f.obj == inner
}

/// The rectangle of the plane of `axis_a` and `axis_b` at offset `k`,
/// spanning the matching extents of the box `[p0, p1]`.
pub open spec fn prism_face(p0: Vec3, p1: Vec3, axis_a: Axis, axis_b: Axis, k: i64, material: usize) -> Rect {
    Rect {
        axis_a,
        axis_b,
        a0: axis_of(p0, axis_a),
        a1: axis_of(p1, axis_a),
        b0: axis_of(p0, axis_b),
        b1: axis_of(p1, axis_b),
        k,
        material,
    }
}

/// The six faces of the box `[p0, p1]`, in construction order: for each axis
/// pair the far rectangle outward, then the near rectangle flipped inward.
pub open spec fn prism_face_list(s: Seq<Hitable>, p0: Vec3, p1: Vec3, material: usize) -> bool {
    &&& s.len() == 6
    &&& s[0] == Hitable::Rect(prism_face(p0, p1, Axis::X, Axis::Y, p1.z, material))
    &&& flip_of(s[1], Hitable::Rect(prism_face(p0, p1, Axis::X, Axis::Y, p0.z, material)))
    &&& s[2] == Hitable::Rect(prism_face(p0, p1, Axis::X, Axis::Z, p1.y, material))
    &&& flip_of(s[3], Hitable::Rect(prism_face(p0, p1, Axis::X, Axis::Z, p0.y, material)))
    &&& s[4] == Hitable::Rect(prism_face(p0, p1, Axis::Y, Axis::Z, p1.x, material))
    &&& flip_of(s[5], Hitable::Rect(prism_face(p0, p1, Axis::Y, Axis::Z, p0.x, material)))
}

impl Prism {
    /// Six rectangles forming the axis-aligned box `[p0, p1]`, the three
    /// far faces outward and the three near faces flipped inward; the
    /// tree's leaves are exactly those six faces.
    pub fn new(p0: Vec3, p1: Vec3, material: usize) -> (r: Prism)
        requires
            p0.x < p1.x && p0.y < p1.y && p0.z < p1.z,
        ensures
            h_wf(Hitable::Prism(r)),
            exists|s: Seq<Hitable>|
                #[trigger] prism_face_list(s, p0, p1, material) && crate::bvh::node_leaves(
                    r.faces,
                ).to_multiset() == s.to_multiset(),
    {
        let mut faces: Vec<Hitable> = Vec::new();
        faces.push(Hitable::Rect(Rect::xy(p0.x, p0.y, p1.x, p1.y, p1.z, material)));
        faces.push(
            Hitable::FlipNormal(
                FlipNormal::new(Hitable::Rect(Rect::xy(p0.x, p0.y, p1.x, p1.y, p0.z, material))),
            ),
        );
        faces.push(Hitable::Rect(Rect::xz(p0.x, p0.z, p1.x, p1.z, p1.y, material)));
        faces.push(
            Hitable::FlipNormal(
                FlipNormal::new(Hitable::Rect(Rect::xz(p0.x, p0.z, p1.x, p1.z, p0.y, material))),
            ),
        );
        faces.push(Hitable::Rect(Rect::yz(p0.y, p0.z, p1.y, p1.z, p1.x, material)));
        faces.push(
            Hitable::FlipNormal(
                FlipNormal::new(Hitable::Rect(Rect::yz(p0.y, p0.z, p1.y, p1.z, p0.x, material))),
            ),
        );
        proof {
            assert(faces@.len() == 6);
            assert(prism_face_list(faces@, p0, p1, material));
            assert forall|i: int| 0 <= i < faces@.len() implies h_wf(#[trigger] faces@[i])
                && crate::bvh::leafy(faces@[i]) by {
                assert(0 <= i < 6);
            }
        }
        let ghost face_view = faces@;
        let node = BVHNode::from_items(faces);
        proof {
            assert(prism_face_list(face_view, p0, p1, material) && crate::bvh::node_leaves(
                node,
            ).to_multiset() == face_view.to_multiset());
        }
        Prism { faces: node }
    }
}

/// The bounding box of any primitive.
pub fn hitable_bb(h: &Hitable) -> (bb: AABB)
    requires
        h_wf(*h),
    ensures
        bb == get_bbs(*h),
    decreases *h,
{
    match h {
        Hitable::Sphere(s) => s.get_bb(),
        Hitable::Rect(rc) => rc.get_bb(),
        Hitable::Triangle(t) => t.get_bb(),
        Hitable::FlipNormal(f) => hitable_bb(&*f.obj),
        Hitable::Translate(tr) => {
            let inner = hitable_bb(&*tr.obj);
            AABB::new(inner.min.add(tr.offset), inner.max.add(tr.offset))
        },
        Hitable::Rotate(ro) => ro.bb,
        Hitable::Volume(vo) => hitable_bb(&*vo.boundary),
        Hitable::Prism(p) => p.faces.bb,
        Hitable::Mesh(m) => m.faces.bb,
        Hitable::Node(n) => n.bb,
    }
}

/// A volume's intersection: find the ray's entry and exit through the
/// boundary, draw a stochastic collision distance `-ln(u) / density`, and
/// report a scattering event at that interior point if it lands before the
/// exit.  Whatever the draw, a reported record stays inside the window and
/// names the phase material.
fn volume_hit(
    boundary: &Hitable,
    density: i64,
    phase_function: usize,
    r: Ray,
    t_min: i64,
    t_max: i64,
    rng: &mut Rng,
) -> (res: Option<HitRecord>)
    requires
        h_wf(*boundary),
        density > 0,
    ensures
        res matches Some(rec) ==> rec_in_window(rec, t_min as int, t_max as int) && rec.material
            == phase_function,
    decreases *boundary, 1int,
{
    if t_min > t_max {
        return None;
    }
    let hit1 = match boundary.hit(r, FX_NEG_INF, FX_INF, rng) {
        Some(h) => h,
        None => {
            return None;
        },
    };
    let hit2 = match boundary.hit(r, fx_add(hit1.t, VOL_EPS), FX_INF, rng) {
        Some(h) => h,
        None => {
            return None;
        },
    };
    let entry = fx_max(fx_max(hit1.t, t_min), 0);
    let exit = fx_min(hit2.t, t_max);
    if entry > exit {
        return None;
    }
    let len = r.dir.len();
    let dist_inside = fx_mul(fx_sub(exit, entry), len);
    let u = rng.next_unit();
    // the stochastic collision distance -ln(u) / density, the decimal
    // logarithm rescaled by ln 10
    let nl10 = fx_neg_log10_unit(u);
    proof {
        assert(nl10 as int * (crate::trig::FX_LN_10 as int) >= 0) by (nonlinear_arith)
            requires
                nl10 >= 0,
        ;
    }
    let nl = fx_mul(nl10, crate::trig::FX_LN_10);
    let hit_dist = fx_div(nl, density);
    proof {
        assert(nl as int * (SCALE as int) >= 0) by (nonlinear_arith)
            requires
                nl >= 0,
        ;
        assert(hit_dist >= 0);
    }
    if hit_dist < dist_inside {
        let step = fx_div(hit_dist, len);
        proof {
            crate::fx::lemma_fxs_sqrt_nonneg(crate::vec3::square_lens(r.dir));
            assert(len >= 0);
            assert(hit_dist as int * (SCALE as int) >= 0) by (nonlinear_arith)
                requires
                    hit_dist >= 0,
            ;
            assert(step >= 0);
        }
        let t = fx_min(fx_add(entry, step), exit);
        Some(
            HitRecord {
                t,
                u: 0,
                v: 0,
                point: r.point_at_param(t),
                normal: Vec3::zero(),
                material: phase_function,
            },
        )
    } else {
        None
    }
}

impl Hitable {
    /// Intersect a ray with this primitive inside the window
    /// `(t_min, t_max)`.  Any reported record lies in the window, carries
    /// unit-interval surface coordinates and names a material that occurs in
    /// the primitive; on randomness-free primitives the result is exactly
    /// `hit_specd` and the generator is untouched.
    #[verifier::rlimit(100)]
    #[verifier::spinoff_prover]
    pub fn hit(&self, r: Ray, t_min: i64, t_max: i64, rng: &mut Rng) -> (res: Option<HitRecord>)
        requires
            h_wf(*self),
        ensures
            res matches Some(rec) ==> rec_in_window(rec, t_min as int, t_max as int) && mat_in(
                *self,
                rec.material,
            ),
            rng_free(*self) ==> *final (rng) == *old(rng) && res == hit_specd(
                *self,
                r,
                t_min as int,
                t_max as int,
            ),
        decreases *self, 0int,
    {
        proof {
            reveal(hit_specd);
            reveal(node_hit_specd);
        }
        match self {
            Hitable::Sphere(s) => s.hit(r, t_min, t_max),
            Hitable::Rect(rc) => rc.hit(r, t_min, t_max),
            Hitable::Triangle(t) => t.hit(r, t_min, t_max),
            Hitable::FlipNormal(f) => {
                match f.obj.hit(r, t_min, t_max, rng) {
                    Some(rec) => Some(HitRecord { normal: rec.normal.neg(), ..rec }),
                    None => None,
                }
            },
            Hitable::Translate(tr) => {
                let moved = Ray::new(r.origin.sub(tr.offset), r.dir);
                match tr.obj.hit(moved, t_min, t_max, rng) {
                    Some(rec) => Some(HitRecord { point: rec.point.add(tr.offset), ..rec }),
                    None => None,
                }
            },
            Hitable::Rotate(ro) => {
                let (aa, ab) = Axis::other_two(ro.axis);
                proof {
                    assert(aa == other_two_a(ro.axis) && ab == other_two_b(ro.axis));
                }
                let rotated = Ray::new(
                    rot_in_exec(r.origin, aa, ab, ro.sin_theta, ro.cos_theta),
                    rot_in_exec(r.dir, aa, ab, ro.sin_theta, ro.cos_theta),
                );
                match ro.obj.hit(rotated, t_min, t_max, rng) {
                    Some(rec) => Some(
                        HitRecord {
                            point: rot_out_exec(rec.point, aa, ab, ro.sin_theta, ro.cos_theta),
                            normal: rot_out_exec(rec.normal, aa, ab, ro.sin_theta, ro.cos_theta),
                            ..rec
                        },
                    ),
                    None => None,
                }
            },
            Hitable::Volume(vo) => volume_hit(
                &*vo.boundary,
                vo.density,
                vo.phase_function,
                r,
                t_min,
                t_max,
                rng,
            ),
            Hitable::Prism(p) => p.faces.hit(r, t_min, t_max, rng),
            Hitable::Mesh(m) => m.faces.hit(r, t_min, t_max, rng),
            Hitable::Node(n) => n.hit(r, t_min, t_max, rng),
        }
    }

    /// The primitive's bounding box.
    pub fn get_bb(&self) -> (bb: AABB)
        requires
            h_wf(*self),
        ensures
            bb == get_bbs(*self),
    {
        hitable_bb(self)
    }
}

impl BVHNode {
    pub fn new(bb: AABB, left: Option<Box<Hitable>>, right: Option<Box<Hitable>>) -> (n: BVHNode)
        ensures
            n.bb == bb && n.left == left && n.right == right,
    {
        BVHNode { bb, left, right }
    }

    /// Traverse the tree: prune on a missed box, otherwise query both
    /// children and keep the closer hit.
    pub fn hit(&self, r: Ray, t_min: i64, t_max: i64, rng: &mut Rng) -> (res: Option<HitRecord>)
        requires
            node_wf(*self),
        ensures
            res matches Some(rec) ==> rec_in_window(rec, t_min as int, t_max as int)
                && node_mat_in(*self, rec.material),
            node_rng_free(*self) ==> *final (rng) == *old(rng) && res == node_hit_specd(
                *self,
                r,
                t_min as int,
                t_max as int,
            ),
        decreases *self, 0int,
    {
        proof {
            reveal(hit_specd);
            reveal(node_hit_specd);
        }
        if !self.bb.hit(r, t_min, t_max) {
            return None;
        }
        let hit_left = match &self.left {
            Some(l) => l.hit(r, t_min, t_max, rng),
            None => None,
        };
        let hit_right = match &self.right {
            Some(rgt) => rgt.hit(r, t_min, t_max, rng),
            None => None,
        };
        match (hit_left, hit_right) {
            (None, None) => None,
            (Some(rec), None) => Some(rec),
            (None, Some(rec)) => Some(rec),
            (Some(lrec), Some(rrec)) => if lrec.t < rrec.t {
                Some(lrec)
            } else {
                Some(rrec)
            },
        }
    }

    pub fn get_bb(&self) -> (bb: AABB)
        ensures
            bb == self.bb,
    {
        self.bb
    }
}

// ---------------------------------------------------------------------------
// brute-force scan

/// The first-minimum fold of a linear scan: among the reported hits, the
/// closest, and the earliest in the list on an exact tie.
pub open spec fn scan_firsts(items: Seq<Hitable>, r: Ray, t_min: int, t_max: int) -> Option<
    HitRecord,
>
    decreases items.len(),
{
    if items.len() == 0 {
        Option::None
    } else {
        let front = scan_firsts(items.drop_last(), r, t_min, t_max);
        let last = hit_specd(items.last(), r, t_min, t_max);
        match (front, last) {
            (Option::None, l) => l,
            (f, Option::None) => f,
            (Option::Some(fr), Option::Some(lr)) => if lr.t < fr.t {
                Option::Some(lr)
            } else {
                Option::Some(fr)
            },
        }
    }
}

/// All primitives in a list are valid.
pub open spec fn group_wf(items: Seq<Hitable>) -> bool {
    forall|i: int| 0 <= i < items.len() ==> h_wf(#[trigger] items[i])
}

/// No primitive in a list draws randomness.
pub open spec fn group_rng_free(items: Seq<Hitable>) -> bool {
    forall|i: int| 0 <= i < items.len() ==> rng_free(#[trigger] items[i])
}

/// The enclosing box of a prefix of a list, folded from the empty box
/// (which is the identity of `combine`).
pub open spec fn group_bbs(items: Seq<Hitable>, n: int) -> AABB
    decreases n,
{
    if n <= 0 {
        AABB {
            min: Vec3 { x: FX_INF, y: FX_INF, z: FX_INF },
            max: Vec3 { x: FX_NEG_INF, y: FX_NEG_INF, z: FX_NEG_INF },
        }
    } else {
        crate::aabb::combines(group_bbs(items, n - 1), get_bbs(items[n - 1]))
    }
}

impl HitableGroup {
    pub fn new(items: Vec<Hitable>) -> (g: HitableGroup)
        ensures
            g.items == items,
    {
        HitableGroup { items }
    }

    /// The box enclosing every primitive of the list, or `None` when the
    /// list is empty.
    pub fn get_bb(&self) -> (bb: Option<AABB>)
        requires
            group_wf(self.items@),
        ensures
            self.items@.len() == 0 <==> bb is None,
            bb matches Some(b) ==> b == group_bbs(self.items@, self.items@.len() as int),
    {
        if self.items.len() == 0 {
            return None;
        }
        let mut acc = AABB::default();
        let mut i: usize = 0;
        while i < self.items.len()
            invariant
                0 <= i <= self.items@.len(),
                group_wf(self.items@),
                acc == group_bbs(self.items@, i as int),
            decreases self.items@.len() - i,
        {
            acc = acc.combine(&self.items[i].get_bb());
            i = i + 1;
        }
        Some(acc)
    }

    /// Brute-force nearest hit: query every primitive and keep the closest
    /// record (the earliest in the list on an exact tie).
    pub fn hit(&self, r: Ray, t_min: i64, t_max: i64, rng: &mut Rng) -> (res: Option<HitRecord>)
        requires
            group_wf(self.items@),
        ensures
            res matches Some(rec) ==> rec_in_window(rec, t_min as int, t_max as int) && exists|
                i: int,
            | 0 <= i < self.items@.len() && mat_in(#[trigger] self.items@[i], rec.material),
            group_rng_free(self.items@) ==> *final (rng) == *old(rng) && res == scan_firsts(
                self.items@,
                r,
                t_min as int,
                t_max as int,
            ),
    {
        let mut best: Option<HitRecord> = None;
        let mut i: usize = 0;
        while i < self.items.len()
            invariant
                0 <= i <= self.items@.len(),
                group_wf(self.items@),
                best matches Some(rec) ==> rec_in_window(rec, t_min as int, t_max as int)
                    && exists|j: int|
                    0 <= j < self.items@.len() && mat_in(#[trigger] self.items@[j], rec.material),
                group_rng_free(self.items@) ==> *rng == *old(rng) && best == scan_firsts(
                    self.items@.take(i as int),
                    r,
                    t_min as int,
                    t_max as int,
                ),
            decreases self.items@.len() - i,
        {
            let candidate = self.items[i].hit(r, t_min, t_max, rng);
            best = match (best, candidate) {
                (None, c) => c,
                (b, None) => b,
                (Some(br), Some(cr)) => if cr.t < br.t {
                    Some(cr)
                } else {
                    Some(br)
                },
            };
            i = i + 1;
            proof {
                assert(self.items@.take(i as int).drop_last() =~= self.items@.take(i as int - 1));
                assert(self.items@.take(i as int).last() == self.items@[i as int - 1]);
            }
        }
        proof {
            assert(self.items@.take(self.items@.len() as int) =~= self.items@);
        }
        best
    }
}

} // verus!
