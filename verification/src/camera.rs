//! The camera: an orthonormal basis and image-plane frame fixed at
//! construction, so each ray is an O(1) lookup plus a lens perturbation.

use vstd::prelude::*;

use crate::fx::{fx_div, fx_from_int, fx_mul, fxs_div, fxs_mul, SCALE};
use crate::ray::Ray;
use crate::rng::Rng;
use crate::vec3::{
    crosss, lens, normalizes, square_lens, vs_add, vs_mul_s, vs_sub, Vec3,
};

verus! {

#[derive(Clone, Copy, Debug, PartialEq, Eq, Structural)]
pub struct Camera {
    pub origin: Vec3,
    pub lower_left: Vec3,
    pub horizontal: Vec3,
    pub vertical: Vec3,
    pub lens_radius: i64,
    pub u: Vec3,
    pub v: Vec3,
}

/// Everything `Camera::new` derives from its inputs: the orthonormal basis
/// `(u, v, w)` from the view direction and up vector, the image-plane corner
/// and span vectors scaled by the focus distance, and the lens radius.
pub open spec fn camera_setups(
    position: Vec3,
    look_at: Vec3,
    up_dir: Vec3,
    half_height: int,
    aspect: int,
    aperture: int,
) -> Camera {
    let half_width = fxs_mul(aspect, half_height);
    let w = normalizes(vs_sub(position, look_at));
    let u = normalizes(crosss(up_dir, w));
    let v = crosss(w, u);
    let focus_dist = lens(vs_sub(position, look_at));
    Camera {
        origin: position,
        lower_left: vs_sub(
            position,
            vs_mul_s(
                vs_add(vs_add(vs_mul_s(u, half_width), vs_mul_s(v, half_height)), w),
                focus_dist,
            ),
        ),
        horizontal: vs_mul_s(u, fxs_mul(fxs_mul(2 * SCALE as int, half_width), focus_dist)),
        vertical: vs_mul_s(v, fxs_mul(fxs_mul(2 * SCALE as int, half_height), focus_dist)),
        lens_radius: fxs_div(aperture, 2 * SCALE as int) as i64,
        u,
        v,
    }
}

/// The ray leaving the camera for image-plane coordinates `(h, v)` in
/// `[0, 1]` and lens-disk sample `d`.
pub open spec fn cam_rays(c: Camera, h: int, v: int, d: Vec3) -> Ray {
    let rd = vs_mul_s(d, c.lens_radius as int);
    let offset = vs_add(vs_mul_s(c.u, rd.x as int), vs_mul_s(c.v, rd.y as int));
    Ray {
        origin: vs_add(c.origin, offset),
        dir: vs_sub(
            vs_sub(
                vs_add(vs_add(c.lower_left, vs_mul_s(c.horizontal, h)), vs_mul_s(c.vertical, v)),
                c.origin,
            ),
            offset,
        ),
    }
}

impl Camera {
    /// Fix the viewing frame.  `half_height` is the tangent of half the
    /// vertical field of view (the one transcendental the caller supplies);
    /// `aspect` is width over height; `aperture` the lens diameter.
    pub fn new(
        position: Vec3,
        look_at: Vec3,
        up_dir: Vec3,
        half_height: i64,
        aspect: i64,
        aperture: i64,
    ) -> (c: Camera)
        ensures
            c == camera_setups(
                position,
                look_at,
                up_dir,
                half_height as int,
                aspect as int,
                aperture as int,
            ),
    {
        let half_width = fx_mul(aspect, half_height);
        let w = position.sub(look_at).normalize();
        let u = up_dir.cross(&w).normalize();
        let v = w.cross(&u);
        let focus_dist = position.sub(look_at).len();
        Camera {
            origin: position,
            lower_left: position.sub(
                u.mul_s(half_width).add(v.mul_s(half_height)).add(w).mul_s(focus_dist),
            ),
            horizontal: u.mul_s(fx_mul(fx_mul(2 * SCALE, half_width), focus_dist)),
            vertical: v.mul_s(fx_mul(fx_mul(2 * SCALE, half_height), focus_dist)),
            lens_radius: fx_div(aperture, fx_from_int(2)),
            u,
            v,
        }
    }

    /// The ray for image-plane coordinates `(h, v)`, perturbed by a random
    /// lens sample for depth of field.  Some in-disk sample explains the
    /// result, and a pinhole camera (zero aperture) is exact.
    pub fn get_ray(&self, h: i64, v: i64, rng: &mut Rng) -> (r: Ray)
        ensures
            exists|d: Vec3|
                square_lens(d) < SCALE as int && d.z == 0 && r == #[trigger] cam_rays(
                    *self,
                    h as int,
                    v as int,
                    d,
                ),
            self.lens_radius == 0 ==> r == cam_rays(
                *self,
                h as int,
                v as int,
                Vec3 { x: 0i64, y: 0i64, z: 0i64 },
            ),
    {
        let d = rng.rand_in_unit_disk();
        let rd = d.mul_s(self.lens_radius);
        let offset = self.u.mul_s(rd.x).add(self.v.mul_s(rd.y));
        let r = Ray::new(
            self.origin.add(offset),
            self.lower_left.add(self.horizontal.mul_s(h)).add(self.vertical.mul_s(v)).sub(
                self.origin,
            ).sub(offset),
        );
        proof {
            assert(r == cam_rays(*self, h as int, v as int, d));
            if self.lens_radius == 0 {
                let z = Vec3 { x: 0i64, y: 0i64, z: 0i64 };
                assert(vs_mul_s(d, 0) == vs_mul_s(z, 0));
                assert(r == cam_rays(*self, h as int, v as int, z));
            }
        }
        r
    }
}

} // verus!
