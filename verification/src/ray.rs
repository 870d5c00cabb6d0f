//! Parametric rays.

use vstd::prelude::*;

use crate::vec3::{vs_add, vs_mul_s, Vec3};

verus! {

#[derive(Clone, Copy, Debug, PartialEq, Eq, Structural)]
pub struct Ray {
    pub origin: Vec3,
    pub dir: Vec3,
}

/// The point a ray reaches at parameter `t`: `origin + dir * t`.
pub open spec fn ray_at(r: Ray, t: int) -> Vec3 {
    vs_add(r.origin, vs_mul_s(r.dir, t))
}

impl Ray {
    pub fn new(a: Vec3, b: Vec3) -> (r: Ray)
        ensures
            r == (Ray { origin: a, dir: b }),
    {
        Ray { origin: a, dir: b }
    }

    pub fn point_at_param(&self, t: i64) -> (r: Vec3)
        ensures
            r == ray_at(*self, t as int),
    {
        self.origin.add(self.dir.mul_s(t))
    }
}

} // verus!
