//! Boxes, primitives, decorators and the acceleration tree, on concrete
//! scenes.  Coordinates are fixed point: 1.0 is `SCALE` raw units.

use ray::aabb::AABB;
use ray::axis::Axis;
use ray::fx::{FX_INF, SCALE};
use ray::hitable::{
    BVHNode, FlipNormal, Hitable, HitableGroup, Prism, Rect, Rotate, Sphere, Translate, Triangle,
    Volume,
};
use ray::hitable::Mesh;
use ray::ray::Ray;
use ray::rng::Rng;
use ray::vec3::Vec3;

fn v(x: i64, y: i64, z: i64) -> Vec3 {
    Vec3::new(x * SCALE, y * SCALE, z * SCALE)
}

fn z_ray() -> Ray {
    Ray::new(v(0, 0, -10), v(0, 0, 1))
}

#[test]
fn aabb_test_hit() {
    let on_origin = AABB::new(v(-1, -1, -1), v(1, 1, 1));
    assert!(on_origin.hit(z_ray(), 0, FX_INF));
}

#[test]
fn aabb_test_miss() {
    let off_origin = AABB::new(v(2, 3, 4), v(3, 4, 5));
    assert!(!off_origin.hit(z_ray(), 0, FX_INF));
}

#[test]
fn aabb_test_time() {
    let on_origin = AABB::new(v(-1, -1, -1), v(1, 1, 1));
    assert!(!on_origin.hit(z_ray(), 0, 5 * SCALE));
    assert!(on_origin.hit(z_ray(), 0, 15 * SCALE));
}

#[test]
fn aabb_test_surface_area() {
    let unit = AABB::new(v(-1, -1, -1), v(1, 1, 1));
    assert_eq!(unit.surface_area(), 24 * SCALE);
    let oblong = AABB::new(v(-1, -2, -3), v(1, 2, 3));
    assert_eq!(oblong.surface_area(), 88 * SCALE);
}

#[test]
fn test_combine() {
    let a = AABB::new(v(-1, 0, -1), v(1, 1, 1));
    let b = AABB::new(v(0, -2, 0), v(3, 0, 1));
    let c = a.combine(&b);
    assert_eq!(c.min, v(-1, -2, -1));
    assert_eq!(c.max, v(3, 1, 1));
    // combining a box with itself changes nothing
    let d = a.combine(&a);
    assert_eq!(d.min, a.min);
    assert_eq!(d.max, a.max);
    // the corners of new() are ordered whatever the argument order
    let e = AABB::new(v(1, 1, 1), v(-1, -1, -1));
    assert_eq!(e.min, v(-1, -1, -1));
    assert_eq!(e.max, v(1, 1, 1));
}

#[test]
fn group_bb_encloses_all() {
    let g = HitableGroup::new(vec![
        Hitable::Sphere(Sphere::new(v(0, 0, 0), SCALE, 0)),
        Hitable::Sphere(Sphere::new(v(4, 4, 4), 2 * SCALE, 0)),
    ]);
    let bb = g.get_bb().unwrap();
    assert_eq!(bb.min, v(-1, -1, -1));
    assert_eq!(bb.max, v(6, 6, 6));
    let empty = HitableGroup::new(Vec::new());
    assert!(empty.get_bb().is_none());
}

fn tri() -> Triangle {
    Triangle::new(v(0, 0, 0), v(0, 4, 0), v(4, 0, 0), 0)
}

#[test]
fn triangle_test_bb() {
    let bb = tri().get_bb();
    assert_eq!(bb.min, v(0, 0, 0));
    assert_eq!(bb.max, v(4, 4, 0));
}

#[test]
fn triangle_test_hit() {
    let hit = tri()
        .hit(Ray::new(v(1, 1, -2), v(0, 0, 1)), 0, FX_INF)
        .unwrap();
    assert_eq!(hit.t, 2 * SCALE);
    assert_eq!(hit.normal, v(0, 0, -1));
    assert_eq!(hit.point, v(1, 1, 0));
    assert_eq!(hit.u, SCALE / 4);
    assert_eq!(hit.v, SCALE / 4);
    let hit = tri()
        .hit(Ray::new(v(1, 0, -1), v(0, 1, 1)), 0, FX_INF)
        .unwrap();
    assert_eq!(hit.t, SCALE);
    assert_eq!(hit.normal, v(0, 0, -1));
    assert_eq!(hit.point, v(1, 1, 0));
    assert_eq!(hit.u, SCALE / 4);
    assert_eq!(hit.v, SCALE / 4);
}

#[test]
fn triangle_hit_point_off_origin() {
    // same triangle shifted away from the origin: the hit point shifts with
    // it, pinning point = v0 + u*e1 + v*e2
    let t = Triangle::new(v(1, 0, 0), v(1, 4, 0), v(5, 0, 0), 0);
    let hit = t
        .hit(Ray::new(v(2, 1, -2), v(0, 0, 1)), 0, FX_INF)
        .unwrap();
    assert_eq!(hit.t, 2 * SCALE);
    assert_eq!(hit.point, v(2, 1, 0));
    assert_eq!(hit.u, SCALE / 4);
    assert_eq!(hit.v, SCALE / 4);
}

#[test]
fn triangle_test_back_hit() {
    assert!(tri()
        .hit(Ray::new(v(1, 1, 2), v(0, 0, -1)), 0, FX_INF)
        .is_none());
}

#[test]
fn triangle_test_miss() {
    let hit = tri().hit(Ray::new(v(5, 5, -2), v(0, 0, 1)), 0, FX_INF);
    assert!(hit.is_none());
}

#[test]
fn sphere_round_trip() {
    // a unit sphere at the origin, hit from (0,0,-10) along +z: t = 9,
    // point (0,0,-1), outward normal (0,0,-1)
    let s = Sphere::new(v(0, 0, 0), SCALE, 0);
    let hit = s.hit(z_ray(), 0, FX_INF).unwrap();
    assert_eq!(hit.t, 9 * SCALE);
    assert_eq!(hit.point, v(0, 0, -1));
    assert_eq!(hit.normal, v(0, 0, -1));
    assert!(s.hit(z_ray(), 0, 5 * SCALE).is_none());
}

#[test]
fn sphere_bb() {
    let s = Sphere::new(v(1, 2, 3), 2 * SCALE, 0);
    let bb = s.get_bb();
    assert_eq!(bb.min, v(-1, 0, 1));
    assert_eq!(bb.max, v(3, 4, 5));
}

#[test]
fn rect_hit_and_uv() {
    let r = Rect::xy(0, 0, 2 * SCALE, 4 * SCALE, SCALE, 0);
    let hit = r
        .hit(Ray::new(v(1, 1, -1), v(0, 0, 1)), 0, FX_INF)
        .unwrap();
    assert_eq!(hit.t, 2 * SCALE);
    assert_eq!(hit.point, v(1, 1, 1));
    assert_eq!(hit.normal, v(0, 0, 1));
    assert_eq!(hit.u, SCALE / 2);
    assert_eq!(hit.v, SCALE / 4);
    // outside the spans: a miss
    assert!(r
        .hit(Ray::new(v(3, 1, -1), v(0, 0, 1)), 0, FX_INF)
        .is_none());
}

#[test]
fn flip_normal_negates() {
    let mut rng = Rng::new(1);
    let f = Hitable::FlipNormal(FlipNormal::new(Hitable::Sphere(Sphere::new(
        v(0, 0, 0),
        SCALE,
        0,
    ))));
    let hit = f.hit(z_ray(), 0, FX_INF, &mut rng).unwrap();
    assert_eq!(hit.normal, v(0, 0, 1));
    assert_eq!(hit.t, 9 * SCALE);
}

#[test]
fn translate_shifts() {
    let mut rng = Rng::new(1);
    let t = Hitable::Translate(Translate::new(
        Hitable::Sphere(Sphere::new(v(0, 0, 0), SCALE, 0)),
        v(0, 0, 5),
    ));
    let hit = t.hit(z_ray(), 0, FX_INF, &mut rng).unwrap();
    assert_eq!(hit.t, 14 * SCALE);
    assert_eq!(hit.point, v(0, 0, 4));
}

#[test]
fn rotate_half_turn() {
    // a half turn about y sends the sphere at (3,0,0) to (-3,0,0)
    let mut rng = Rng::new(1);
    let r = Hitable::Rotate(Rotate::new(
        Hitable::Sphere(Sphere::new(v(3, 0, 0), SCALE, 0)),
        Axis::Y,
        180 * SCALE,
    ));
    let ray = Ray::new(v(-10, 0, 0), v(1, 0, 0));
    let hit = r.hit(ray, 0, FX_INF, &mut rng).unwrap();
    // the rotation is an approximation; the hit lands near t = 6
    assert!(hit.t > 5 * SCALE && hit.t < 7 * SCALE);
}

#[test]
fn volume_hit_stays_in_window() {
    let mut rng = Rng::new(9);
    let vol = Hitable::Volume(Volume::new(
        5 * SCALE,
        Hitable::Sphere(Sphere::new(v(0, 0, 0), 2 * SCALE, 0)),
        1,
    ));
    let mut some = 0;
    let mut none = 0;
    for _ in 0..50 {
        match vol.hit(z_ray(), 0, FX_INF, &mut rng) {
            Some(hit) => {
                assert!(hit.t >= 0);
                assert_eq!(hit.material, 1);
                some += 1;
            }
            None => {
                none += 1;
            }
        }
    }
    // a dense medium scatters most rays but the draw is stochastic
    assert!(some + none == 50);
    assert!(some > 0);
}

#[test]
fn prism_faces_both_sides() {
    let mut rng = Rng::new(1);
    let p = Hitable::Prism(Prism::new(v(-1, -1, -1), v(1, 1, 1), 0));
    let hit = p.hit(z_ray(), 0, FX_INF, &mut rng).unwrap();
    assert_eq!(hit.t, 9 * SCALE);
    assert_eq!(hit.point, v(0, 0, -1));
}

#[test]
fn mesh_of_two_triangles() {
    let points = vec![v(0, 0, 0), v(0, 4, 0), v(4, 0, 0), v(-4, 0, 0)];
    let indices: Vec<u32> = vec![0, 1, 2, 0, 1, 3];
    let m = Mesh::new(&points, &indices, 0);
    let mut rng = Rng::new(1);
    let h = Hitable::Mesh(m);
    let hit = h
        .hit(Ray::new(v(1, 1, -2), v(0, 0, 1)), 0, FX_INF, &mut rng)
        .unwrap();
    assert_eq!(hit.t, 2 * SCALE);
    let hit = h
        .hit(Ray::new(v(-1, 1, 2), v(0, 0, -1)), 0, FX_INF, &mut rng)
        .unwrap();
    assert_eq!(hit.t, 2 * SCALE);
    assert!(h
        .hit(Ray::new(v(5, 5, -2), v(0, 0, 1)), 0, FX_INF, &mut rng)
        .is_none());
}

#[test]
fn generated_normals_follow_faces() {
    // one triangle in the xy plane: every touched vertex gets the +z face
    // normal; an untouched vertex gets the zero vector
    let points = vec![v(0, 0, 0), v(4, 0, 0), v(0, 4, 0), v(9, 9, 9)];
    let indices: Vec<u32> = vec![0, 1, 2];
    let normals = ray::mesh::generate_normals(&points, &indices);
    assert_eq!(normals.len(), 4);
    assert_eq!(normals[0], v(0, 0, 1));
    assert_eq!(normals[1], v(0, 0, 1));
    assert_eq!(normals[2], v(0, 0, 1));
    assert_eq!(normals[3], v(0, 0, 0));
}

fn sample_world() -> Vec<Hitable> {
    let mut rng = Rng::new(1234);
    let mut items: Vec<Hitable> = Vec::new();
    let mut k = 0;
    while k < 24 {
        let c = Vec3::new(
            rng.next_unit() * 16 - 8 * SCALE,
            rng.next_unit() * 16 - 8 * SCALE,
            rng.next_unit() * 16 - 8 * SCALE,
        );
        let r = SCALE / 2 + rng.next_unit();
        items.push(Hitable::Sphere(Sphere::new(c, r, k as usize % 4)));
        k += 1;
    }
    items.push(Hitable::Triangle(tri()));
    items
}

#[test]
fn bvh_matches_linear_scan() {
    // the accelerated query answers exactly like the brute-force scan
    let tree = BVHNode::from_items(sample_world());
    let group = HitableGroup::new(sample_world());
    let mut ray_rng = Rng::new(99);
    let mut rng_a = Rng::new(1);
    let mut rng_b = Rng::new(1);
    for _ in 0..200 {
        let origin = Vec3::new(
            ray_rng.next_unit() * 40 - 20 * SCALE,
            ray_rng.next_unit() * 40 - 20 * SCALE,
            -25 * SCALE,
        );
        let dir = Vec3::new(
            ray_rng.next_unit() - SCALE / 2,
            ray_rng.next_unit() - SCALE / 2,
            2 * SCALE,
        );
        let r = Ray::new(origin, dir);
        let from_tree = tree.hit(r, 66, FX_INF, &mut rng_a);
        let from_scan = group.hit(r, 66, FX_INF, &mut rng_b);
        match (from_tree, from_scan) {
            (None, None) => {}
            (Some(a), Some(b)) => {
                assert_eq!(a.t, b.t);
                assert_eq!(a.point, b.point);
                assert_eq!(a.normal, b.normal);
                assert_eq!(a.material, b.material);
            }
            (a, b) => {
                panic!("tree and scan disagree: {:?} vs {:?}", a, b);
            }
        }
    }
}
