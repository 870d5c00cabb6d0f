//! In-memory bitmaps used as textures.
//!
//! Decoding a file into pixels is an I/O concern that lives outside the
//! library; `Image::new` takes the already decoded dimensions and RGB bytes
//! and validates them against the type's invariant.

use vstd::prelude::*;

use crate::fx::{fx_floor_div, fx_mul, fx_sub, fxs_mul, fxs_sub, SCALE};
use crate::vec3::Vec3;

verus! {

/// A decoded RGB bitmap: `data` holds three bytes per pixel, row-major,
/// row 0 at the visual top.
#[derive(Debug, Clone)]
pub struct Image {
    pub width: usize,
    pub height: usize,
    pub data: Vec<u8>,
}

/// The invariant of a valid image: positive, moderate dimensions and exactly
/// three bytes per pixel.
pub open spec fn img_wf(img: Image) -> bool {
    1 <= img.width <= 0x1_0000 && 1 <= img.height <= 0x1_0000 && img.data@.len() == 3 * img.width
        * img.height
}

/// Clamp an integer into `[0, hi]`.
pub open spec fn clamp_idx(v: int, hi: int) -> int {
    if v < 0 {
        0
    } else if v > hi {
        hi
    } else {
        v
    }
}

/// The column sampled at texture coordinate `u`: `floor(u * width)`, clamped
/// into range.
pub open spec fn img_col(img: Image, u: int) -> int {
    clamp_idx(fxs_mul(u, img.width as int * SCALE as int) / SCALE as int, img.width as int - 1)
}

/// The row sampled at texture coordinate `v`, with the vertical flip
/// convention (`v = 0` is the visual bottom of the image).
pub open spec fn img_row(img: Image, v: int) -> int {
    clamp_idx(
        fxs_mul(fxs_sub(SCALE as int, v), img.height as int * SCALE as int) / SCALE as int,
        img.height as int - 1,
    )
}

/// A channel byte rescaled into `[0, 1]` fixed point.
pub open spec fn byte_unit(b: u8) -> i64 {
    ((b as int * SCALE as int) / 255) as i64
}

/// The colour of the nearest pixel to `(u, v)`.
pub open spec fn img_values(img: Image, u: int, v: int) -> Vec3 {
    let base = 3 * img_col(img, u) + 3 * img.width as int * img_row(img, v);
    Vec3 {
        x: byte_unit(img.data@[base]),
        y: byte_unit(img.data@[base + 1]),
        z: byte_unit(img.data@[base + 2]),
    }
}

impl Image {
    /// Wrap decoded pixel data; `None` when the buffer does not hold exactly
    /// three bytes per pixel or a dimension is zero or outsized.
    pub fn new(width: usize, height: usize, data: Vec<u8>) -> (r: Option<Image>)
        ensures
            r matches Some(img) ==> img_wf(img) && img == (Image { width, height, data }),
            r is None <==> !img_wf(Image { width, height, data }),
    {
        if width < 1 || width > 0x1_0000 || height < 1 || height > 0x1_0000 {
            return None;
        }
        proof {
            assert(3u64 * (width as u64) * (height as u64) <= 3u64 * 0x1_0000u64 * 0x1_0000u64
                && 3 * (width as int) * (height as int) == (3u64 * (width as u64) * (
            height as u64)) as int) by (nonlinear_arith)
                requires
                    1 <= width as u64 <= 0x1_0000u64,
                    1 <= height as u64 <= 0x1_0000u64,
            ;
        }
        if data.len() as u64 == 3 * (width as u64) * (height as u64) {
            Some(Image { width, height, data })
        } else {
            None
        }
    }

    /// Nearest-pixel lookup at `(u, v)`, with `v` measured from the bottom.
    pub fn value(&self, u: i64, v: i64) -> (r: Vec3)
        requires
            img_wf(*self),
        ensures
            r == img_values(*self, u as int, v as int),
    {
        let n = self.data.len();
        let i = self.index_for(u, self.width);
        proof {
            assert(self.height as u64 * (SCALE as u64) <= 0x1_0000u64 * 0x1_0000u64)
                by (nonlinear_arith)
                requires
                    self.height <= 0x1_0000,
            ;
        }
        let jv = fx_mul(fx_sub(SCALE, v), (self.height as u64 * (SCALE as u64)) as i64);
        let j = Self::clamp_scaled(jv, self.height);
        proof {
            assert(3 * (i as int) + 3 * (self.width as int) * (j as int) + 2 < 3 * (
            self.width as int) * (self.height as int) && 0 <= 3 * (self.width as int) * (
            j as int) <= 3 * (self.width as int) * (self.height as int)) by (nonlinear_arith)
                requires
                    0 <= i < self.width,
                    0 <= j < self.height,
                    1 <= self.width,
                    1 <= self.height,
            ;
        }
        let base = 3 * i + 3 * self.width * j;
        Vec3 {
            x: Self::byte_to_unit(self.data[base]),
            y: Self::byte_to_unit(self.data[base + 1]),
            z: Self::byte_to_unit(self.data[base + 2]),
        }
    }

    /// The clamped column index for a horizontal coordinate.
    fn index_for(&self, u: i64, extent: usize) -> (i: usize)
        requires
            1 <= extent <= 0x1_0000,
        ensures
            i as int == clamp_idx(
                fxs_mul(u as int, extent as int * SCALE as int) / SCALE as int,
                extent as int - 1,
            ),
            i < extent,
    {
        proof {
            assert(extent as u64 * (SCALE as u64) <= 0x1_0000u64 * 0x1_0000u64)
                by (nonlinear_arith)
                requires
                    extent <= 0x1_0000,
            ;
        }
        let scaled = fx_mul(u, (extent as u64 * (SCALE as u64)) as i64);
        Self::clamp_scaled(scaled, extent)
    }

    /// Truncate a scaled coordinate to a pixel index inside `[0, extent)`.
    fn clamp_scaled(scaled: i64, extent: usize) -> (i: usize)
        requires
            1 <= extent <= 0x1_0000,
        ensures
            i as int == clamp_idx(scaled as int / SCALE as int, extent as int - 1),
            i < extent,
    {
        let (q, _r) = fx_floor_div(scaled, SCALE);
        if q < 0 {
            0
        } else if q >= extent as i64 {
            extent - 1
        } else {
            q as usize
        }
    }

    /// One channel byte as a unit-interval scalar.
    fn byte_to_unit(b: u8) -> (r: i64)
        ensures
            r == byte_unit(b),
            0 <= r <= SCALE,
    {
        proof {
            assert((b as int * SCALE as int) / 255 <= (255 * SCALE as int) / 255)
                by (nonlinear_arith)
                requires
                    b <= 255,
            ;
        }
        ((b as u64 * (SCALE as u64)) / 255) as i64
    }
}

} // verus!
