//! Triangle meshes.
//!
//! Loading a polygon file is an I/O concern that lives outside the library;
//! `Mesh::new` takes the already decoded vertex positions and triangle
//! indices, builds one triangle per index triple, and puts them behind their
//! own acceleration tree.

use vstd::prelude::*;

use crate::bvh::{leafy, node_leaves, seq_has_mat};
use crate::hitable::{
    h_wf, mat_in, node_mat_in, node_rng_free, BVHNode, Hitable, Mesh, Triangle,
};
use crate::vec3::{crosss, normalizes, vs_add, vs_sub, Vec3};

verus! {

/// The triangle list a mesh is built from: one triangle per consecutive
/// index triple, all sharing one material.
pub open spec fn mesh_triangles(points: Seq<Vec3>, indices: Seq<u32>, material: usize) -> Seq<
    Hitable,
>
    decreases indices.len(),
{
    if indices.len() < 3 {
        Seq::empty()
    } else {
        let front = indices.drop_last().drop_last().drop_last();
        let k = indices.len() - 3;
        mesh_triangles(points, front, material).push(
            Hitable::Triangle(
                Triangle {
                    v0: points[indices[k] as int],
                    v1: points[indices[k + 1] as int],
                    v2: points[indices[k + 2] as int],
                    material,
                },
            ),
        )
    }
}

/// Every index names a vertex.
pub open spec fn indices_valid(points: Seq<Vec3>, indices: Seq<u32>) -> bool {
    forall|i: int| 0 <= i < indices.len() ==> (#[trigger] indices[i] as int) < points.len()
}

/// What one index triple contributes to vertex `p`'s normal: the face's
/// edge cross product when the triangle touches the vertex, nothing
/// otherwise.
pub open spec fn face_normal_term(points: Seq<Vec3>, indices: Seq<u32>, t: int, p: int) -> Vec3 {
    let a = indices[3 * t] as int;
    let b = indices[3 * t + 1] as int;
    let c = indices[3 * t + 2] as int;
    if a == p || b == p || c == p {
        crosss(vs_sub(points[b], points[a]), vs_sub(points[c], points[a]))
    } else {
        Vec3 { x: 0i64, y: 0i64, z: 0i64 }
    }
}

/// The sum of the face contributions of the first `k` triangles to vertex
/// `p`'s normal.
pub open spec fn vertex_normal_sums(points: Seq<Vec3>, indices: Seq<u32>, k: int, p: int) -> Vec3
    decreases k,
{
    if k <= 0 {
        Vec3 { x: 0i64, y: 0i64, z: 0i64 }
    } else {
        vs_add(
            vertex_normal_sums(points, indices, k - 1, p),
            face_normal_term(points, indices, k - 1, p),
        )
    }
}

/// Smooth per-vertex normals for a polygon soup that came without them:
/// each vertex gets the normalized sum of the face normals of every
/// triangle that touches it.
pub fn generate_normals(points: &Vec<Vec3>, indices: &Vec<u32>) -> (normals: Vec<Vec3>)
    requires
        indices@.len() % 3 == 0,
        indices_valid(points@, indices@),
    ensures
        normals@.len() == points@.len(),
        forall|p: int|
            0 <= p < points@.len() ==> #[trigger] normals@[p] == normalizes(
                vertex_normal_sums(points@, indices@, indices@.len() as int / 3, p),
            ),
{
    let ilen = indices.len();
    let n_tris = ilen / 3;
    proof {
        vstd::arithmetic::div_mod::lemma_fundamental_div_mod(indices@.len() as int, 3);
    }
    let mut normals: Vec<Vec3> = Vec::new();
    let mut p: usize = 0;
    while p < points.len()
        invariant
            p <= points@.len(),
            ilen == indices@.len(),
            3 * n_tris == ilen,
            n_tris == indices@.len() as int / 3,
            indices_valid(points@, indices@),
            normals@.len() == p,
            forall|q: int|
                0 <= q < p ==> #[trigger] normals@[q] == normalizes(
                    vertex_normal_sums(points@, indices@, n_tris as int, q),
                ),
        decreases points@.len() - p,
    {
        let mut acc = Vec3::zero();
        let mut t: usize = 0;
        while t < n_tris
            invariant
                t <= n_tris,
                p < points@.len(),
                ilen == indices@.len(),
                3 * n_tris == ilen,
                indices_valid(points@, indices@),
                acc == vertex_normal_sums(points@, indices@, t as int, p as int),
            decreases n_tris - t,
        {
            let base = 3 * t;
            let a = indices[base] as usize;
            let b = indices[base + 1] as usize;
            let c = indices[base + 2] as usize;
            if a == p || b == p || c == p {
                let term = points[b].sub(points[a]).cross(&points[c].sub(points[a]));
                acc = acc.add(term);
            } else {
                acc = acc.add(Vec3::zero());
            }
            t = t + 1;
        }
        normals.push(acc.normalize());
        p = p + 1;
    }
    normals
}

impl Mesh {
    /// Build a mesh from decoded vertex positions and triangle indices (one
    /// triangle per three consecutive indices).  The result is a valid tree
    /// whose leaves are exactly those triangles, drawing no randomness and
    /// mentioning only the given material.
    pub fn new(points: &Vec<Vec3>, indices: &Vec<u32>, material: usize) -> (m: Mesh)
        requires
            indices@.len() >= 3,
            indices@.len() % 3 == 0,
            indices_valid(points@, indices@),
        ensures
            h_wf(Hitable::Mesh(m)),
            node_leaves(m.faces).to_multiset() == mesh_triangles(
                points@,
                indices@,
                material,
            ).to_multiset(),
            node_rng_free(m.faces),
            forall|id: usize| node_mat_in(m.faces, id) ==> id == material,
    {
        let ilen = indices.len();
        let n_tris = ilen / 3;
        proof {
            vstd::arithmetic::div_mod::lemma_fundamental_div_mod(indices@.len() as int, 3);
        }
        let mut tris: Vec<Hitable> = Vec::new();
        proof {
            assert(indices@.take(0) =~= Seq::<u32>::empty());
            assert(tris@ =~= mesh_triangles(points@, indices@.take(0), material));
        }
        let mut t: usize = 0;
        while t < n_tris
            invariant
                0 <= t <= n_tris,
                ilen == indices@.len(),
                n_tris == indices@.len() as int / 3,
                3 * n_tris == ilen,
                indices_valid(points@, indices@),
                tris@ == mesh_triangles(points@, indices@.take(3 * t as int), material),
                tris@.len() == t,
                forall|i: int|
                    0 <= i < tris@.len() ==> ((#[trigger] tris@[i]) matches Hitable::Triangle(tt)
                        && tt.material == material),
            decreases n_tris - t,
        {
            let base = 3 * t;
            let tri = Triangle {
                v0: points[indices[base] as usize],
                v1: points[indices[base + 1] as usize],
                v2: points[indices[base + 2] as usize],
                material,
            };
            tris.push(Hitable::Triangle(tri));
            t = t + 1;
            proof {
                let pre = indices@.take(3 * (t - 1) as int);
                let cur = indices@.take(3 * t as int);
                assert(cur.drop_last().drop_last().drop_last() =~= pre);
                assert(cur[3 * (t - 1) as int] == indices@[3 * (t - 1) as int]);
                assert(tris@ =~= mesh_triangles(points@, cur, material));
            }
        }
        proof {
            assert(indices@.take(3 * n_tris as int) =~= indices@);
            assert forall|i: int| 0 <= i < tris@.len() implies h_wf(#[trigger] tris@[i]) && leafy(
                tris@[i],
            ) by {}
        }
        let ghost tris_view = tris@;
        let faces = BVHNode::from_items(tris);
        proof {
            assert forall|id: usize| node_mat_in(faces, id) implies id == material by {
                assert(seq_has_mat(tris_view, id));
                let i = choose|i: int|
                    0 <= i < tris_view.len() && mat_in(#[trigger] tris_view[i], id);
            }
        }
        Mesh { faces }
    }
}

} // verus!
