//! Vector algebra and scalar arithmetic, checked on concrete values.
//! All coordinates are fixed point: a value of 1.0 is `SCALE` raw units.

use ray::fx::{fx_add, fx_div, fx_mul, fx_sqrt, fx_sub, FX_ONE, SCALE};
use ray::ray::Ray;
use ray::rng::Rng;
use ray::trig::{fx_asin, fx_atan2, fx_sin, FX_HALF_PI, FX_PI};
use ray::vec3::Vec3;

fn fxv(x: f64) -> i64 {
    (x * SCALE as f64).round() as i64
}

#[test]
fn test_construct() {
    assert_eq!(
        Vec3::new(fxv(1.5), 0, fxv(-0.5)),
        Vec3 {
            x: 98304,
            y: 0,
            z: -32768,
        }
    );
    assert_eq!(
        Vec3 {
            x: 16384,
            y: 16384,
            z: 16384,
        },
        Vec3::from_scalar(fxv(0.25))
    );
}

#[test]
fn test_arithmetic() {
    let a = Vec3::new(fxv(-4.0), fxv(1.25), fxv(16.5));
    let b = Vec3::new(fxv(4.0), fxv(5.0), fxv(4.0));
    assert_eq!(a.add(b), Vec3::new(0, fxv(6.25), fxv(20.5)));
    assert_eq!(a.sub(b), Vec3::new(fxv(-8.0), fxv(-3.75), fxv(12.5)));
    assert_eq!(a.div(b), Vec3::new(fxv(-1.0), fxv(0.25), fxv(4.125)));
    assert_eq!(a.mul(b), Vec3::new(fxv(-16.0), fxv(6.25), fxv(66.0)));
}

#[test]
fn test_len() {
    assert_eq!(Vec3::new(SCALE, 0, 0).len(), SCALE);
    assert_eq!(Vec3::new(4 * SCALE, 4 * SCALE, 4 * SCALE).len(), 454046);
    assert_eq!(Vec3::new(-3 * SCALE, 0, 4 * SCALE).len(), 5 * SCALE);
}

#[test]
fn test_norm() {
    assert_eq!(
        Vec3::new(8 * SCALE, 4 * SCALE, 8 * SCALE).normalize(),
        Vec3::new(2 * SCALE, SCALE, 2 * SCALE).div_s(3 * SCALE)
    );
    let mut rng = Rng::new(7);
    let mut checked = 0;
    while checked < 10 {
        let v = rng.rand_in_unit_sphere().mul_s(2 * SCALE);
        if v.square_len() > SCALE / 4 {
            let l = v.normalize().len();
            assert!(l >= SCALE - 64 && l <= SCALE + 64);
            checked += 1;
        }
    }
}

#[test]
fn test_dot() {
    let r = Vec3::new(SCALE, 2 * SCALE, 3 * SCALE)
        .dot(&Vec3::new(4 * SCALE, -5 * SCALE, 6 * SCALE));
    assert_eq!(r, 12 * SCALE);
    let v = Vec3::new(0, 2 * SCALE, 4 * SCALE);
    assert_eq!(v.dot(&v), 20 * SCALE);
}

#[test]
fn test_cross() {
    assert_eq!(
        Vec3::new(3 * SCALE, -3 * SCALE, SCALE).cross(&Vec3::new(4 * SCALE, 9 * SCALE, 2 * SCALE)),
        Vec3::new(-15 * SCALE, -2 * SCALE, 39 * SCALE)
    );
    assert_eq!(
        Vec3::new(3 * SCALE, -3 * SCALE, SCALE)
            .cross(&Vec3::new(-12 * SCALE, 12 * SCALE, -4 * SCALE)),
        Vec3::new(0, 0, 0)
    );
}

#[test]
fn test_point_at_param() {
    let r = Ray::new(
        Vec3::new(-SCALE, -SCALE, -SCALE),
        Vec3::new(0, 2 * SCALE, 3 * SCALE),
    );
    assert_eq!(r.point_at_param(SCALE), Vec3::new(-SCALE, SCALE, 2 * SCALE));
}

#[test]
fn fx_scalar_ops() {
    assert_eq!(fx_add(SCALE, SCALE), 2 * SCALE);
    assert_eq!(fx_sub(SCALE, 3 * SCALE), -2 * SCALE);
    assert_eq!(fx_mul(fxv(1.5), fxv(2.0)), fxv(3.0));
    assert_eq!(fx_mul(fxv(-1.5), fxv(2.0)), fxv(-3.0));
    assert_eq!(fx_div(fxv(3.0), fxv(2.0)), fxv(1.5));
    assert_eq!(fx_div(SCALE, 0), i64::MAX);
    assert_eq!(fx_div(-SCALE, 0), i64::MIN);
    assert_eq!(fx_div(0, 0), 0);
    assert_eq!(fx_sqrt(4 * SCALE), 2 * SCALE);
    assert_eq!(fx_sqrt(-SCALE), 0);
    // saturation instead of wrapping
    assert_eq!(fx_add(i64::MAX, SCALE), i64::MAX);
    assert_eq!(fx_mul(i64::MAX, 2 * SCALE), i64::MAX);
    assert_eq!(fx_mul(i64::MAX, -2 * SCALE), i64::MIN);
}

#[test]
fn trig_values() {
    assert_eq!(fx_sin(0), 0);
    let s = fx_sin(FX_HALF_PI);
    assert!(s >= SCALE - 200 && s <= SCALE);
    let s = fx_sin(FX_PI + FX_HALF_PI);
    assert!(s <= -(SCALE - 200) && s >= -SCALE);
    assert_eq!(fx_atan2(0, SCALE), 0);
    assert_eq!(fx_atan2(SCALE, 0), FX_HALF_PI);
    assert_eq!(fx_asin(0), 0);
    assert_eq!(fx_asin(FX_ONE), FX_HALF_PI);
    assert_eq!(fx_asin(-FX_ONE), -FX_HALF_PI);
}

#[test]
fn rng_deterministic_and_in_range() {
    let mut a = Rng::new(42);
    let mut b = Rng::new(42);
    for _ in 0..100 {
        let x = a.next_unit();
        let y = b.next_unit();
        assert_eq!(x, y);
        assert!(0 <= x && x < FX_ONE);
    }
    let mut c = Rng::new(43);
    let p = c.rand_in_unit_sphere();
    assert!(p.square_len() <= FX_ONE);
    let d = c.rand_in_unit_disk();
    assert!(d.square_len() < FX_ONE);
    assert_eq!(d.z, 0);
}
