//! Building the bounding-volume hierarchy, and what the tree guarantees.
//!
//! `BVHNode::from_items` recursively partitions a primitive list: it sorts
//! along the axis of greatest extent, scans every split position with the
//! surface-area cost `i * area(left union) + (n - i) * area(right union)`
//! using prefix and suffix unions, and recurses on the cheapest split.  Its
//! contract pins down what traversal relies on: the tree is well-formed
//! (every node's box encloses its children's boxes) and its leaves are
//! exactly the input primitives, as a multiset.  `lemma_bvh_matches_scan`
//! then states the acceleration law: whenever box pruning never discards a
//! hit, traversal returns exactly the nearest-hit fold of a linear scan.

use vstd::prelude::*;

use crate::aabb::{bb_contains, bbs_hit, combines, lemma_combine_contains, lemma_combine_monotone,
    AABB};
use crate::axis::Axis;
use crate::hitable::{
    combine_hits, get_bbs, group_rng_free, group_wf, h_wf, hit_specd, mat_in, node_hit_specd,
    node_mat_in, node_rng_free, node_wf, rng_free, BVHNode, Hitable,
};
use crate::ray::Ray;

verus! {

/// Not an inner tree node (the builder's inputs are scene primitives, never
/// raw nodes, so a leaf of the built tree is exactly one input item).
pub open spec fn leafy(h: Hitable) -> bool {
    !(h matches Hitable::Node(_))
}

/// No item of the list is a raw tree node.
pub open spec fn group_leafy(items: Seq<Hitable>) -> bool {
    forall|i: int| 0 <= i < items.len() ==> leafy(#[trigger] items[i])
}

/// Some item of the list mentions the material index.
pub open spec fn seq_has_mat(items: Seq<Hitable>, id: usize) -> bool {
    exists|i: int| 0 <= i < items.len() && mat_in(#[trigger] items[i], id)
}

/// The primitives at the leaves of a subtree, left to right.
pub open spec fn leaves(h: Hitable) -> Seq<Hitable>
    decreases h,
{
    match h {
        Hitable::Node(n) => node_leaves(n),
        _ => seq![h],
    }
}

/// The primitives at the leaves under a node, left to right.
pub open spec fn node_leaves(n: BVHNode) -> Seq<Hitable>
    decreases n,
{
    (match n.left {
        Option::Some(l) => leaves(*l),
        Option::None => Seq::empty(),
    }) + (match n.right {
        Option::Some(r) => leaves(*r),
        Option::None => Seq::empty(),
    })
}

/// The union of the bounding boxes of a nonempty list, folded left to right.
pub open spec fn fold_bbs(s: Seq<Hitable>) -> AABB
    decreases s.len(),
{
    if s.len() <= 1 {
        if s.len() == 0 {
            AABB {
                min: crate::vec3::Vec3 { x: i64::MAX, y: i64::MAX, z: i64::MAX },
                max: crate::vec3::Vec3 { x: i64::MIN, y: i64::MIN, z: i64::MIN },
            }
        } else {
            get_bbs(s[0])
        }
    } else {
        combines(fold_bbs(s.drop_last()), get_bbs(s.last()))
    }
}

/// The nearest hit of a brute-force scan, folded with the tree's tie rule
/// (the later item wins an exact tie).
pub open spec fn nearest_hits(items: Seq<Hitable>, r: Ray, t_min: int, t_max: int) -> Option<
    crate::hitable::HitRecord,
>
    decreases items.len(),
{
    if items.len() == 0 {
        Option::None
    } else {
        combine_hits(
            nearest_hits(items.drop_last(), r, t_min, t_max),
            hit_specd(items.last(), r, t_min, t_max),
        )
    }
}

/// Pruning is sound for this ray and window: wherever a subtree's box is
/// missed, no primitive under that subtree is hit either.  This is the
/// hypothesis of the acceleration law; it holds whenever every box truly
/// bounds its primitives' hit points (fixed-point rounding at a box face can
/// break it by one raw unit, which is why it is a stated hypothesis).
pub open spec fn prune_sound(n: BVHNode, r: Ray, t_min: int, t_max: int) -> bool
    decreases n,
{
    &&& (!bbs_hit(n.bb, r, t_min, t_max) ==> nearest_hits(node_leaves(n), r, t_min, t_max)
        is None)
    &&& (match n.left {
        Option::Some(l) => h_prune_sound(*l, r, t_min, t_max),
        Option::None => true,
    })
    &&& (match n.right {
        Option::Some(rgt) => h_prune_sound(*rgt, r, t_min, t_max),
        Option::None => true,
    })
}

/// `prune_sound` through a child: only inner nodes constrain anything.
pub open spec fn h_prune_sound(h: Hitable, r: Ray, t_min: int, t_max: int) -> bool
    decreases h,
{
    match h {
        Hitable::Node(n) => prune_sound(n, r, t_min, t_max),
        _ => true,
    }
}

/// Folding the nearest hit distributes over concatenation.
proof fn lemma_nearest_concat(a: Seq<Hitable>, b: Seq<Hitable>, r: Ray, t_min: int, t_max: int)
    ensures
        nearest_hits(a + b, r, t_min, t_max) == combine_hits(
            nearest_hits(a, r, t_min, t_max),
            nearest_hits(b, r, t_min, t_max),
        ),
    decreases b.len(),
{
    if b.len() == 0 {
        assert(a + b =~= a);
    } else {
        assert((a + b).drop_last() =~= a + b.drop_last());
        assert((a + b).last() == b.last());
        lemma_nearest_concat(a, b.drop_last(), r, t_min, t_max);
    }
}

/// The acceleration law, child side: a leaf is its own scan; an inner node
/// defers to the tree side.
proof fn lemma_child_matches_scan(h: Hitable, r: Ray, t_min: int, t_max: int)
    requires
        h_prune_sound(h, r, t_min, t_max),
    ensures
        hit_specd(h, r, t_min, t_max) == nearest_hits(leaves(h), r, t_min, t_max),
    decreases h,
{
    reveal(hit_specd);
    reveal(node_hit_specd);
    match h {
        Hitable::Node(n) => {
            lemma_bvh_matches_scan(n, r, t_min, t_max);
        },
        _ => {
            assert(leaves(h) =~= seq![h]);
            assert(leaves(h).drop_last() =~= Seq::<Hitable>::empty());
            assert(nearest_hits(Seq::<Hitable>::empty(), r, t_min, t_max) is None);
            assert(leaves(h).last() == h);
            assert(nearest_hits(leaves(h), r, t_min, t_max) == combine_hits(
                nearest_hits(leaves(h).drop_last(), r, t_min, t_max),
                hit_specd(h, r, t_min, t_max),
            ));
        },
    }
}

/// **The acceleration law.**  For any ray and window for which box pruning
/// never discards a hit (`prune_sound`), traversing the tree returns exactly
/// what a brute-force linear scan over the tree's primitives returns: the
/// nearest hit, with the later primitive winning an exact tie.  The tree
/// accelerates the query; it never changes its answer.
pub proof fn lemma_bvh_matches_scan(n: BVHNode, r: Ray, t_min: int, t_max: int)
    requires
        prune_sound(n, r, t_min, t_max),
    ensures
        node_hit_specd(n, r, t_min, t_max) == nearest_hits(node_leaves(n), r, t_min, t_max),
    decreases n,
{
    reveal(hit_specd);
    reveal(node_hit_specd);
    let ls = match n.left {
        Option::Some(l) => leaves(*l),
        Option::None => Seq::empty(),
    };
    let rs = match n.right {
        Option::Some(rgt) => leaves(*rgt),
        Option::None => Seq::empty(),
    };
    if !bbs_hit(n.bb, r, t_min, t_max) {
    } else {
        match n.left {
            Option::Some(l) => {
                lemma_child_matches_scan(*l, r, t_min, t_max);
            },
            Option::None => {},
        }
        match n.right {
            Option::Some(rgt) => {
                lemma_child_matches_scan(*rgt, r, t_min, t_max);
            },
            Option::None => {},
        }
        lemma_nearest_concat(ls, rs, r, t_min, t_max);
    }
}

/// Traversal never invents a hit, with no hypothesis at all: whatever record
/// a tree query reports is exactly what one of the tree's own primitives
/// reports for the same query.
pub proof fn lemma_bvh_hit_is_a_leaf_hit(n: BVHNode, r: Ray, t_min: int, t_max: int)
    requires
        node_hit_specd(n, r, t_min, t_max) is Some,
    ensures
        exists|i: int|
            0 <= i < node_leaves(n).len() && hit_specd(
                #[trigger] node_leaves(n)[i],
                r,
                t_min,
                t_max,
            ) == node_hit_specd(n, r, t_min, t_max),
    decreases n,
{
    reveal(hit_specd);
    reveal(node_hit_specd);
    let ls = match n.left {
        Option::Some(l) => leaves(*l),
        Option::None => Seq::empty(),
    };
    let rs = match n.right {
        Option::Some(rgt) => leaves(*rgt),
        Option::None => Seq::empty(),
    };
    assert(node_leaves(n) == ls + rs);
    let res = node_hit_specd(n, r, t_min, t_max);
    let hl = match n.left {
        Option::Some(l) => hit_specd(*l, r, t_min, t_max),
        Option::None => Option::None,
    };
    let hr = match n.right {
        Option::Some(rgt) => hit_specd(*rgt, r, t_min, t_max),
        Option::None => Option::None,
    };
    if hl == res && hl is Some {
        match n.left {
            Option::Some(l) => {
                lemma_child_hit_is_a_leaf_hit(*l, r, t_min, t_max);
                let i = choose|i: int|
                    0 <= i < ls.len() && hit_specd(#[trigger] ls[i], r, t_min, t_max) == hl;
                assert(node_leaves(n)[i] == ls[i]);
            },
            Option::None => {},
        }
    } else {
        assert(hr == res);
        match n.right {
            Option::Some(rgt) => {
                lemma_child_hit_is_a_leaf_hit(*rgt, r, t_min, t_max);
                let i = choose|i: int|
                    0 <= i < rs.len() && hit_specd(#[trigger] rs[i], r, t_min, t_max) == hr;
                assert(node_leaves(n)[ls.len() + i] == rs[i]);
            },
            Option::None => {},
        }
    }
}

/// The child side of `lemma_bvh_hit_is_a_leaf_hit`.
proof fn lemma_child_hit_is_a_leaf_hit(h: Hitable, r: Ray, t_min: int, t_max: int)
    requires
        hit_specd(h, r, t_min, t_max) is Some,
    ensures
        exists|i: int|
            0 <= i < leaves(h).len() && hit_specd(#[trigger] leaves(h)[i], r, t_min, t_max)
                == hit_specd(h, r, t_min, t_max),
    decreases h,
{
    reveal(hit_specd);
    reveal(node_hit_specd);
    match h {
        Hitable::Node(n) => {
            lemma_bvh_hit_is_a_leaf_hit(n, r, t_min, t_max);
            assert(leaves(h) == node_leaves(n));
        },
        _ => {
            assert(leaves(h) =~= seq![h]);
            assert(leaves(h)[0] == h);
        },
    }
}

/// Transfer the per-element facts the builder maintains across a
/// permutation (multiset equality).
proof fn lemma_elem_transfer(a: Seq<Hitable>, b: Seq<Hitable>)
    requires
        a.to_multiset() == b.to_multiset(),
    ensures
        group_wf(a) ==> group_wf(b),
        group_leafy(a) ==> group_leafy(b),
        group_rng_free(a) ==> group_rng_free(b),
        forall|id: usize| seq_has_mat(b, id) ==> seq_has_mat(a, id),
    decreases a.len(),
{
    broadcast use vstd::seq_lib::group_to_multiset_ensures;

    assert forall|x: Hitable| b.contains(x) implies a.contains(x) by {
        assert(b.to_multiset().count(x) > 0);
    }
    if group_wf(a) {
        assert forall|i: int| 0 <= i < b.len() implies h_wf(#[trigger] b[i]) by {
            assert(b.contains(b[i]));
            let j = choose|j: int| 0 <= j < a.len() && a[j] == b[i];
            assert(h_wf(a[j]));
        }
    }
    if group_leafy(a) {
        assert forall|i: int| 0 <= i < b.len() implies leafy(#[trigger] b[i]) by {
            assert(b.contains(b[i]));
            let j = choose|j: int| 0 <= j < a.len() && a[j] == b[i];
            assert(leafy(a[j]));
        }
    }
    if group_rng_free(a) {
        assert forall|i: int| 0 <= i < b.len() implies rng_free(#[trigger] b[i]) by {
            assert(b.contains(b[i]));
            let j = choose|j: int| 0 <= j < a.len() && a[j] == b[i];
            assert(rng_free(a[j]));
        }
    }
    assert forall|id: usize| seq_has_mat(b, id) implies seq_has_mat(a, id) by {
        let i = choose|i: int| 0 <= i < b.len() && mat_in(b[i], id);
        assert(b.contains(b[i]));
        let j = choose|j: int| 0 <= j < a.len() && a[j] == b[i];
        assert(mat_in(a[j], id));
    }
}

/// A box containing every element's box contains their fold.
proof fn lemma_fold_contained(s: Seq<Hitable>, outer: AABB)
    requires
        s.len() >= 1,
        forall|i: int| 0 <= i < s.len() ==> bb_contains(outer, get_bbs(#[trigger] s[i])),
    ensures
        bb_contains(outer, fold_bbs(s)),
    decreases s.len(),
{
    if s.len() == 1 {
    } else {
        lemma_fold_contained(s.drop_last(), outer);
        lemma_combine_monotone(outer, fold_bbs(s.drop_last()), get_bbs(s.last()));
    }
}

impl BVHNode {
    /// Recursively split a primitive list into a tree.  The tree is
    /// well-formed, its box is the union of the inputs' boxes, and its
    /// leaves are exactly the inputs (as a multiset); a list free of
    /// randomness builds a tree free of randomness, and the tree mentions
    /// no material the list does not.
    pub fn from_items(items: Vec<Hitable>) -> (n: BVHNode)
        requires
            items@.len() >= 1,
            group_wf(items@),
            group_leafy(items@),
        ensures
            node_wf(n),
            n.bb == fold_bbs(items@),
            node_leaves(n).to_multiset() == items@.to_multiset(),
            group_rng_free(items@) ==> node_rng_free(n),
            forall|id: usize| node_mat_in(n, id) ==> seq_has_mat(items@, id),
        decreases items@.len(),
    {
        broadcast use vstd::seq_lib::group_to_multiset_ensures;

        let ghost orig = items@;
        let mut items = items;
        if items.len() == 1 {
            let h = match items.pop() {
                Some(h) => h,
                None => {
                    return vstd::pervasive::unreached();
                },
            };
            let bb = h.get_bb();
            proof {
                assert(orig =~= seq![h]);
                assert(fold_bbs(orig) == get_bbs(h));
            }
            let n = BVHNode { bb, left: Some(Box::new(h)), right: None };
            proof {
                assert(node_leaves(n) =~= leaves(h) + Seq::<Hitable>::empty());
                assert(node_leaves(n) =~= seq![h]);
            }
            return n;
        }
        if items.len() == 2 {
            let right = match items.pop() {
                Some(h) => h,
                None => {
                    return vstd::pervasive::unreached();
                },
            };
            let left = match items.pop() {
                Some(h) => h,
                None => {
                    return vstd::pervasive::unreached();
                },
            };
            let bb = left.get_bb().combine(&right.get_bb());
            proof {
                assert(orig =~= seq![left, right]);
                assert(orig.drop_last() =~= seq![left]);
                assert(fold_bbs(seq![left]) == get_bbs(left));
                assert(fold_bbs(orig) == combines(fold_bbs(orig.drop_last()), get_bbs(
                    orig.last(),
                )));
                lemma_combine_contains(get_bbs(left), get_bbs(right));
            }
            let n = BVHNode { bb, left: Some(Box::new(left)), right: Some(Box::new(right)) };
            proof {
                assert(node_leaves(n) =~= seq![left] + seq![right]);
                assert(node_leaves(n) =~= orig);
            }
            return n;
        }
        let len = items.len();
        // the union of all boxes, and the fact that it contains each of them
        let mut main_box = items[0].get_bb();
        let mut i: usize = 1;
        proof {
            assert(items@.take(1int) =~= seq![items@[0]]);
        }
        while i < len
            invariant
                1 <= i <= len,
                len == items@.len(),
                group_wf(items@),
                main_box == fold_bbs(items@.take(i as int)),
                forall|j: int|
                    0 <= j < i ==> bb_contains(main_box, get_bbs(#[trigger] items@[j])),
            decreases len - i,
        {
            let ghost prev = main_box;
            let next = items[i].get_bb();
            main_box = main_box.combine(&next);
            proof {
                assert(items@.take(i as int + 1).drop_last() =~= items@.take(i as int));
                assert(items@.take(i as int + 1).last() == items@[i as int]);
                lemma_combine_contains(prev, next);
                assert forall|j: int|
                    0 <= j < i + 1 implies bb_contains(
                    main_box,
                    get_bbs(#[trigger] items@[j]),
                ) by {}
            }
            i = i + 1;
        }
        proof {
            assert(items@.take(len as int) =~= items@);
        }
        // split axis: the axis of greatest extent of the whole box
        let ex = crate::fx::fx_sub(main_box.max.x, main_box.min.x);
        let ey = crate::fx::fx_sub(main_box.max.y, main_box.min.y);
        let ez = crate::fx::fx_sub(main_box.max.z, main_box.min.z);
        let axis = if ex > ey && ex > ez {
            Axis::X
        } else if ey > ex && ey > ez {
            Axis::Y
        } else {
            Axis::Z
        };
        // insertion sort by the box's minimum coordinate on that axis
        let mut s: usize = 1;
        while s < len
            invariant
                1 <= s <= len,
                len == items@.len(),
                items@.to_multiset() == orig.to_multiset(),
                group_wf(items@),
                forall|j: int|
                    0 <= j < len ==> bb_contains(main_box, get_bbs(#[trigger] items@[j])),
            decreases len - s,
        {
            let mut j: usize = s;
            while j > 0
                invariant
                    0 <= j <= s < len,
                    len == items@.len(),
                    items@.to_multiset() == orig.to_multiset(),
                    group_wf(items@),
                    forall|jj: int|
                        0 <= jj < len ==> bb_contains(main_box, get_bbs(#[trigger] items@[jj])),
                decreases j,
            {
                let prev_key = items[j - 1].get_bb().min.get_axis(axis);
                let cur_key = items[j].get_bb().min.get_axis(axis);
                if prev_key <= cur_key {
                    break ;
                }
                let ghost before = items@;
                let moved = items.remove(j - 1);
                items.insert(j, moved);
                proof {
                    broadcast use vstd::multiset::group_multiset_axioms, vstd::multiset::group_multiset_properties;

                    assert(before.contains(before[j as int - 1]));
                    vstd::seq_lib::to_multiset_contains(before, before[j as int - 1]);
                    vstd::seq_lib::to_multiset_remove(before, j as int - 1);
                    vstd::seq_lib::to_multiset_insert(before.remove(j as int - 1), j as int, moved);
                    assert(items@ == before.remove(j as int - 1).insert(j as int, moved));
                    assert(items@.to_multiset() =~= before.to_multiset());
                    assert forall|jj: int| 0 <= jj < len implies bb_contains(
                        main_box,
                        get_bbs(#[trigger] items@[jj]),
                    ) by {
                        if jj < j - 1 || jj > j {
                            assert(items@[jj] == before[jj]);
                        } else if jj == j - 1 {
                            assert(items@[jj] == before[j as int]);
                        } else {
                            assert(items@[jj] == before[j - 1]);
                        }
                    }
                    assert forall|jj: int| 0 <= jj < len implies h_wf(
                        #[trigger] items@[jj],
                    ) by {
                        if jj < j - 1 || jj > j {
                            assert(items@[jj] == before[jj]);
                        } else if jj == j - 1 {
                            assert(items@[jj] == before[j as int]);
                        } else {
                            assert(items@[jj] == before[j - 1]);
                        }
                    }
                }
                j = j - 1;
            }
            s = s + 1;
        }
        // prefix unions (areas of the left split candidates)
        let mut left_area: Vec<i64> = Vec::new();
        let mut left_box = items[0].get_bb();
        left_area.push(left_box.surface_area());
        let mut i2: usize = 1;
        while i2 < len
            invariant
                1 <= i2 <= len,
                len == items@.len(),
                group_wf(items@),
                left_area@.len() == i2,
            decreases len - i2,
        {
            left_box = left_box.combine(&items[i2].get_bb());
            left_area.push(left_box.surface_area());
            i2 = i2 + 1;
        }
        // suffix unions, built from the far end (areas of the right splits)
        let mut right_area_rev: Vec<i64> = Vec::new();
        let mut right_box = items[len - 1].get_bb();
        right_area_rev.push(right_box.surface_area());
        let mut i3: usize = 1;
        while i3 < len
            invariant
                1 <= i3 <= len,
                len == items@.len(),
                group_wf(items@),
                right_area_rev@.len() == i3,
            decreases len - i3,
        {
            right_box = right_box.combine(&items[len - 1 - i3].get_bb());
            right_area_rev.push(right_box.surface_area());
            i3 = i3 + 1;
        }
        // pick the split index with the least surface-area cost
        let mut min_sah: i64 = i64::MAX;
        let mut min_sah_idx: usize = 0;
        let mut i4: usize = 0;
        while i4 < len - 1
            invariant
                0 <= i4 <= len - 1,
                0 <= min_sah_idx < len - 1,
                len == items@.len(),
                left_area@.len() == len,
                right_area_rev@.len() == len,
                len >= 3,
            decreases len - 1 - i4,
        {
            let la = left_area[i4];
            let ra = right_area_rev[len - 2 - i4];
            let lan: u128 = if la > 0 {
                la as u128
            } else {
                0
            };
            let ran: u128 = if ra > 0 {
                ra as u128
            } else {
                0
            };
            proof {
                assert((i4 as u128 + 1) * lan <= 0x1_0000_0000_0000_0000u128
                    * 0x7fff_ffff_ffff_ffffu128 && ((len - 1 - i4) as u128) * ran
                    <= 0x1_0000_0000_0000_0000u128 * 0x7fff_ffff_ffff_ffffu128)
                    by (nonlinear_arith)
                    requires
                        i4 as u128 + 1 <= 0x1_0000_0000_0000_0000u128,
                        ((len - 1 - i4) as u128) <= 0x1_0000_0000_0000_0000u128,
                        lan <= 0x7fff_ffff_ffff_ffffu128,
                        ran <= 0x7fff_ffff_ffff_ffffu128,
                ;
            }
            let left_cost: u128 = (i4 as u128 + 1) * lan;
            let right_cost: u128 = ((len - 1 - i4) as u128) * ran;
            let total: u128 = left_cost + right_cost;
            let sah: i64 = if total > i64::MAX as u128 {
                i64::MAX
            } else {
                total as i64
            };
            if sah < min_sah {
                min_sah = sah;
                min_sah_idx = i4;
            }
            i4 = i4 + 1;
        }
        // recurse on the two sides of the chosen split
        let ghost sorted = items@;
        let tail = items.split_off(min_sah_idx + 1);
        proof {
            assert(sorted =~= items@ + tail@);
            vstd::seq_lib::lemma_multiset_commutative(items@, tail@);
            lemma_elem_transfer(orig, sorted);
            assert forall|j: int| 0 <= j < items@.len() implies h_wf(#[trigger] items@[j])
                && leafy(items@[j]) by {
                assert(items@[j] == sorted[j]);
            }
            assert forall|j: int| 0 <= j < tail@.len() implies h_wf(#[trigger] tail@[j]) && leafy(
                tail@[j],
            ) by {
                assert(tail@[j] == sorted[j + items@.len()]);
            }
        }
        let ghost head_view = items@;
        let ghost tail_view = tail@;
        let left_node = BVHNode::from_items(items);
        let right_node = BVHNode::from_items(tail);
        proof {
            // the node box contains both children's boxes
            assert forall|j: int| 0 <= j < head_view.len() implies bb_contains(
                main_box,
                get_bbs(#[trigger] head_view[j]),
            ) by {
                assert(head_view[j] == sorted[j]);
            }
            assert forall|j: int| 0 <= j < tail_view.len() implies bb_contains(
                main_box,
                get_bbs(#[trigger] tail_view[j]),
            ) by {
                assert(tail_view[j] == sorted[j + head_view.len()]);
            }
            lemma_fold_contained(head_view, main_box);
            lemma_fold_contained(tail_view, main_box);
        }
        let n = BVHNode {
            bb: main_box,
            left: Some(Box::new(Hitable::Node(left_node))),
            right: Some(Box::new(Hitable::Node(right_node))),
        };
        proof {
            // leaves: the two subtrees' leaves together are the sorted list,
            // which is a permutation of the input
            vstd::seq_lib::lemma_multiset_commutative(
                node_leaves(left_node),
                node_leaves(right_node),
            );
            assert(node_leaves(n) =~= node_leaves(left_node) + node_leaves(right_node));
            vstd::seq_lib::lemma_multiset_commutative(head_view, tail_view);
            assert(node_leaves(n).to_multiset() == orig.to_multiset());
            // randomness-freedom and material transfer
            if group_rng_free(orig) {
                lemma_elem_transfer(orig, sorted);
                assert forall|j: int| 0 <= j < head_view.len() implies rng_free(
                    #[trigger] head_view[j],
                ) by {
                    assert(head_view[j] == sorted[j]);
                }
                assert forall|j: int| 0 <= j < tail_view.len() implies rng_free(
                    #[trigger] tail_view[j],
                ) by {
                    assert(tail_view[j] == sorted[j + head_view.len()]);
                }
            }
            assert forall|id: usize| node_mat_in(n, id) implies seq_has_mat(orig, id) by {
                lemma_elem_transfer(orig, sorted);
                assert(node_mat_in(left_node, id) || node_mat_in(right_node, id));
                if node_mat_in(left_node, id) {
                    assert(seq_has_mat(head_view, id));
                    let j = choose|j: int|
                        0 <= j < head_view.len() && mat_in(#[trigger] head_view[j], id);
                    assert(sorted[j] == head_view[j]);
                    assert(mat_in(sorted[j], id));
                    assert(seq_has_mat(sorted, id));
                } else {
                    assert(seq_has_mat(tail_view, id));
                    let j = choose|j: int|
                        0 <= j < tail_view.len() && mat_in(#[trigger] tail_view[j], id);
                    assert(sorted[j + head_view.len()] == tail_view[j]);
                    assert(mat_in(sorted[j + head_view.len()], id));
                    assert(seq_has_mat(sorted, id));
                }
            }
        }
        n
    }
}

} // verus!
