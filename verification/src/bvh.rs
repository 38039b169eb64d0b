//! The bounding-volume hierarchy.
//!
//! Build policy (kept deliberately simple, not a surface-area heuristic):
//! pick one axis at random, sort the primitives by their boxes' minimum on
//! that axis, and bisect; one remaining primitive becomes a leaf with an
//! empty right child.  The build contract says the tree holds exactly the
//! primitives it was given (as a multiset); the traversal contract pins the
//! returned record to `bvh_hit_spec`.

use crate::aabb::Aabb;
use crate::fx::Fx;
use crate::hitable::{
    bvh_hit_spec, orv, spec_bbox, HitRecord, Hitable, HitableList, surrounding_box,
};
use crate::ray::Ray;
use crate::rng::random_below;
use crate::vec3::Vec3;
use vstd::multiset::Multiset;
use vstd::prelude::*;
use vstd::seq_lib::{
    lemma_multiset_commutative, to_multiset_build, to_multiset_contains, to_multiset_len,
    to_multiset_remove,
};

verus! {

/// The empty sequence carries the empty multiset.
proof fn lemma_empty_to_multiset()
    ensures
        Seq::<Hitable>::empty().to_multiset() =~= Multiset::<Hitable>::empty(),
{
    to_multiset_len(Seq::<Hitable>::empty());
    vstd::multiset::lemma_multiset_empty_len(Seq::<Hitable>::empty().to_multiset());
}

#[derive(Debug)]
pub struct BvhNode {
    pub left: Box<Hitable>,
    pub right: Box<Hitable>,
    pub bounding_box: Aabb,
}

/// The primitives a node stands for: aggregates built by the tree (inner
/// nodes and the empty filler list) unfold, anything else is a leaf.
pub open spec fn elems_of(h: Hitable) -> Seq<Hitable>
    decreases h, 0nat, 1nat,
{
    match h {
        Hitable::Bvh(n) => bvh_elems(n),
        Hitable::List(l) => if l.list@.len() == 0 {
            Seq::empty()
        } else {
            seq![h]
        },
        _ => seq![h],
    }
}

pub open spec fn bvh_elems(n: BvhNode) -> Seq<Hitable>
    decreases n, 0nat, 2nat,
{
    elems_of(*n.left) + elems_of(*n.right)
}

/// The primitives of the first `n` entries of a sequence, concatenated.
pub open spec fn elems_prefix(s: Seq<Hitable>, n: int) -> Seq<Hitable>
    decreases s, n, 2nat,
{
    if n <= 0 || n > s.len() {
        Seq::empty()
    } else {
        elems_prefix(s, n - 1) + elems_of(s[n - 1])
    }
}

pub open spec fn elems_seq(s: Seq<Hitable>) -> Seq<Hitable> {
    elems_prefix(s, s.len() as int)
}

/// `elems_prefix` only reads the first `n` entries.
proof fn lemma_elems_prefix_congruent(s1: Seq<Hitable>, s2: Seq<Hitable>, n: int)
    requires
        n <= s1.len(),
        n <= s2.len(),
        forall|i: int| 0 <= i < n ==> s1[i] == s2[i],
    ensures
        elems_prefix(s1, n) == elems_prefix(s2, n),
    decreases n,
{
    if n > 0 {
        lemma_elems_prefix_congruent(s1, s2, n - 1);
    }
}

/// Removing entry `j` removes exactly its primitives from the multiset.
proof fn lemma_elems_remove(s: Seq<Hitable>, n: int, j: int)
    requires
        0 <= j < n <= s.len(),
    ensures
        elems_prefix(s, n).to_multiset() =~= elems_of(s[j]).to_multiset().add(
            elems_prefix(s.remove(j), n - 1).to_multiset(),
        ),
    decreases n,
{
    lemma_multiset_commutative(elems_prefix(s, n - 1), elems_of(s[n - 1]));
    if j == n - 1 {
        lemma_elems_prefix_congruent(s, s.remove(j), n - 1);
    } else {
        lemma_elems_remove(s, n - 1, j);
        assert(s.remove(j)[n - 2] == s[n - 1]);
        lemma_multiset_commutative(elems_prefix(s.remove(j), n - 2), elems_of(s.remove(j)[n - 2]));
    }
}

/// Two sequences with the same multiset of entries have the same multiset
/// of primitives.
proof fn lemma_elems_perm(s1: Seq<Hitable>, s2: Seq<Hitable>)
    requires
        s1.to_multiset() == s2.to_multiset(),
    ensures
        elems_seq(s1).to_multiset() =~= elems_seq(s2).to_multiset(),
    decreases s1.len(),
{
    to_multiset_len(s1);
    to_multiset_len(s2);
    if s1.len() == 0 {
    } else {
        let n1 = s1.len() as int;
        let x = s1[n1 - 1];
        to_multiset_contains(s1, x);
        to_multiset_contains(s2, x);
        assert(s1.contains(x));
        let j = choose|j: int| 0 <= j < s2.len() && s2[j] == x;
        let s1p = s1.remove(n1 - 1);
        let s2p = s2.remove(j);
        to_multiset_remove(s1, n1 - 1);
        to_multiset_remove(s2, j);
        lemma_elems_perm(s1p, s2p);
        lemma_elems_remove(s1, n1, n1 - 1);
        lemma_elems_remove(s2, s2.len() as int, j);
    }
}

/// Splitting a sequence splits its primitives.
proof fn lemma_elems_concat(a: Seq<Hitable>, b: Seq<Hitable>)
    ensures
        elems_seq(a + b).to_multiset() =~= elems_seq(a).to_multiset().add(
            elems_seq(b).to_multiset(),
        ),
    decreases b.len(),
{
    let s = a + b;
    if b.len() == 0 {
        assert(s =~= a);
        assert(elems_prefix(b, 0) =~= Seq::<Hitable>::empty());
        lemma_empty_to_multiset();
        assert(elems_seq(b).to_multiset() =~= Multiset::<Hitable>::empty());
    } else {
        let bp = b.remove(b.len() - 1);
        assert(a + bp =~= s.remove(s.len() - 1));
        lemma_elems_concat(a, bp);
        assert(elems_prefix(s, s.len() as int) == elems_prefix(s, s.len() as int - 1) + elems_of(
            s[s.len() - 1],
        ));
        assert(elems_prefix(s, s.len() as int - 1) == elems_seq(s.remove(s.len() - 1))) by {
            lemma_elems_prefix_congruent(s, s.remove(s.len() - 1), s.len() as int - 1);
        }
        lemma_multiset_commutative(elems_prefix(s, s.len() as int - 1), elems_of(s[s.len() - 1]));
        assert(elems_prefix(b, b.len() as int) == elems_prefix(b, b.len() as int - 1) + elems_of(
            b[b.len() - 1],
        ));
        assert(elems_prefix(b, b.len() as int - 1) == elems_seq(bp)) by {
            lemma_elems_prefix_congruent(b, bp, b.len() as int - 1);
        }
        lemma_multiset_commutative(elems_prefix(b, b.len() as int - 1), elems_of(b[b.len() - 1]));
        assert(s[s.len() - 1] == b[b.len() - 1]);
    }
}

/// The box a child contributes to its parent's union: its own box, or the
/// zero box where it reports none (the fallback the build uses).
pub open spec fn bz(h: Hitable, t0: int, t1: int) -> ((int, int, int), (int, int, int)) {
    match spec_bbox(h, t0, t1) {
        Some(b) => b,
        None => ((0, 0, 0), (0, 0, 0)),
    }
}

/// The filler child of a single-primitive leaf.
pub open spec fn is_empty_list(h: Hitable) -> bool {
    h matches Hitable::List(l) && l.list@.len() == 0
}

/// Box well-formedness of a built tree: every node's stored box is the
/// surrounding box of its two children's boxes — a single-primitive leaf,
/// whose right child is the empty filler list, keeps just that primitive's
/// box — and inner nodes are well formed in turn.
pub open spec fn bvh_boxed(n: BvhNode, t0: int, t1: int) -> bool
    decreases n, 1nat, 0nat,
{
    &&& (crate::hitable::bv(n.bounding_box) == crate::hitable::sbox(
        bz(*n.left, t0, t1),
        bz(*n.right, t0, t1),
    ) || (is_empty_list(*n.right) && crate::hitable::bv(n.bounding_box) == bz(*n.left, t0, t1)))
    &&& boxed_h(*n.left, t0, t1)
    &&& boxed_h(*n.right, t0, t1)
}

pub open spec fn boxed_h(h: Hitable, t0: int, t1: int) -> bool
    decreases h, 0nat, 0nat,
{
    match h {
        Hitable::Bvh(n) => bvh_boxed(n, t0, t1),
        _ => true,
    }
}

/// One box lies entirely inside another, axis by axis.
pub open spec fn box_within(
    inner: ((int, int, int), (int, int, int)),
    outer: ((int, int, int), (int, int, int)),
) -> bool {
    &&& outer.0.0 <= inner.0.0
    &&& outer.0.1 <= inner.0.1
    &&& outer.0.2 <= inner.0.2
    &&& outer.1.0 >= inner.1.0
    &&& outer.1.1 >= inner.1.1
    &&& outer.1.2 >= inner.1.2
}

/// In a box-well-formed tree, the root box contains the box of every
/// primitive the tree holds.
pub proof fn lemma_boxed_contains_elems(n: BvhNode, t0: int, t1: int, i: int)
    requires
        bvh_boxed(n, t0, t1),
        0 <= i < bvh_elems(n).len(),
    ensures
        box_within(bz(bvh_elems(n)[i], t0, t1), crate::hitable::bv(n.bounding_box)),
    decreases n, 3nat, 0nat,
{
    let el = elems_of(*n.left);
    let er = elems_of(*n.right);
    assert(bvh_elems(n) == el + er);
    if i < el.len() {
        assert(bvh_elems(n)[i] == el[i]);
        lemma_boxed_child_contains(*n.left, t0, t1, i);
    } else {
        assert(bvh_elems(n)[i] == er[i - el.len()]);
        assert(er.len() > 0);
        assert(!is_empty_list(*n.right));
        lemma_boxed_child_contains(*n.right, t0, t1, i - el.len());
    }
}

/// A child's primitives lie inside the child's own contributed box.
proof fn lemma_boxed_child_contains(h: Hitable, t0: int, t1: int, i: int)
    requires
        boxed_h(h, t0, t1),
        0 <= i < elems_of(h).len(),
    ensures
        box_within(bz(elems_of(h)[i], t0, t1), bz(h, t0, t1)),
    decreases h, 2nat, 0nat,
{
    match h {
        Hitable::Bvh(n) => {
            lemma_boxed_contains_elems(n, t0, t1, i);
        },
        _ => {},
    }
}

/// Sort key: the box minimum along the chosen axis (zero for the boxless).
pub open spec fn box_key(h: Hitable, axis: int) -> int {
    match spec_bbox(h, 0, 0) {
        Some(bb) => if axis == 0 {
            bb.0.0
        } else if axis == 1 {
            bb.0.1
        } else {
            bb.0.2
        },
        None => 0,
    }
}

fn axis_key(h: &Hitable, axis: u64) -> (k: i64)
    ensures
        k as int == box_key(*h, axis as int),
{
    match h.bounding_box(Fx::zero(), Fx::zero()) {
        Some(b) => {
            if axis == 0 {
                b.min.x.raw
            } else if axis == 1 {
                b.min.y.raw
            } else {
                b.min.z.raw
            }
        },
        None => 0,
    }
}

/// Selection sort by box minimum along `axis`: ascending, a permutation of
/// the input.
fn sort_by_axis(nodes: &mut Vec<Hitable>, axis: u64)
    ensures
        final(nodes)@.len() == old(nodes)@.len(),
        final(nodes)@.to_multiset() == old(nodes)@.to_multiset(),
        forall|i: int, j: int|
            0 <= i <= j < final(nodes)@.len() ==> box_key(final(nodes)@[i], axis as int) <= box_key(
                final(nodes)@[j],
                axis as int,
            ),
{
    let mut rest = nodes.split_off(0);
    let ghost orig = rest@;
    let mut out: Vec<Hitable> = Vec::new();
    proof {
        lemma_empty_to_multiset();
        assert(out@ =~= Seq::<Hitable>::empty());
        assert(out@.to_multiset().add(rest@.to_multiset()) =~= orig.to_multiset()) by {
            broadcast use vstd::multiset::group_multiset_axioms;

        }
    }
    while rest.len() > 0
        invariant
            out@.to_multiset().add(rest@.to_multiset()) == orig.to_multiset(),
            out@.len() + rest@.len() == orig.len(),
            forall|i: int, j: int|
                0 <= i <= j < out@.len() ==> box_key(out@[i], axis as int) <= box_key(
                    out@[j],
                    axis as int,
                ),
            forall|i: int, j: int|
                0 <= i < out@.len() && 0 <= j < rest@.len() ==> box_key(out@[i], axis as int)
                    <= box_key(rest@[j], axis as int),
        decreases rest@.len(),
    {
        let mut imin: usize = 0;
        let mut kmin: i64 = axis_key(&rest[0], axis);
        let mut i: usize = 1;
        while i < rest.len()
            invariant
                1 <= i <= rest@.len(),
                imin < i,
                kmin as int == box_key(rest@[imin as int], axis as int),
                forall|j: int|
                    0 <= j < i ==> kmin as int <= box_key(rest@[j], axis as int),
            decreases rest@.len() - i,
        {
            let k = axis_key(&rest[i], axis);
            if k < kmin {
                kmin = k;
                imin = i;
            }
            i = i + 1;
        }
        let ghost rest_before = rest@;
        let ghost out_before = out@;
        let x = rest.remove(imin);
        out.push(x);
        proof {
            to_multiset_remove(rest_before, imin as int);
            to_multiset_build(out_before, x);
            assert(out@ == out_before.push(x));
            to_multiset_contains(rest_before, x);
            assert(rest_before.contains(x));
            assert(out@.to_multiset().add(rest@.to_multiset()) =~= orig.to_multiset()) by {
                broadcast use vstd::multiset::group_multiset_axioms;

                assert(out@.to_multiset() =~= out_before.to_multiset().insert(x));
                assert(rest@.to_multiset() =~= rest_before.to_multiset().remove(x));
                assert(rest_before.to_multiset().count(x) > 0);
                assert(out_before.to_multiset().add(rest_before.to_multiset())
                    =~= orig.to_multiset());
            }
            assert forall|j: int| 0 <= j < rest@.len() implies kmin as int <= box_key(
                rest@[j],
                axis as int,
            ) by {
                if j < imin {
                    assert(rest@[j] == rest_before[j]);
                } else {
                    assert(rest@[j] == rest_before[j + 1]);
                }
            }
        }
    }
    proof {
        assert(orig =~= old(nodes)@);
        assert(rest@ =~= Seq::<Hitable>::empty());
        lemma_empty_to_multiset();
        assert(out@.to_multiset() =~= old(nodes)@.to_multiset()) by {
            broadcast use vstd::multiset::group_multiset_axioms;

        }
    }
    *nodes = out;
}

impl BvhNode {
    /// Build a tree over the given primitives (which are drained), by the
    /// random-axis sort-and-bisect policy.
    pub fn new(nodes: &mut Vec<Hitable>, t0: Fx, t1: Fx) -> (n: BvhNode)
        requires
            old(nodes)@.len() >= 1,
        ensures
            final(nodes)@.len() == 0,
            bvh_elems(n).to_multiset() == elems_seq(old(nodes)@).to_multiset(),
            (forall|i: int|
                0 <= i < old(nodes)@.len() ==> boxed_h(
                    #[trigger] old(nodes)@[i],
                    t0.raw as int,
                    t1.raw as int,
                )) ==> bvh_boxed(n, t0.raw as int, t1.raw as int),
    {
        let v = nodes.split_off(0);
        proof {
            assert(v@ =~= old(nodes)@);
        }
        build(v, t0, t1)
    }

    /// Traverse: the node's own box first; if it passes, both children over
    /// the full window, the nearer record winning (the left on ties).
    pub fn hit(&self, r: &Ray, t_min: Fx, t_max: Fx) -> (res: Option<HitRecord>)
        ensures
            orv(res) == bvh_hit_spec(*self, *r, t_min.raw as int, t_max.raw as int),
        decreases *self, 0nat, 0nat,
    {
        if self.bounding_box.hit(r, t_min, t_max) {
            let left_hit = self.left.hit(r, t_min, t_max);
            let right_hit = self.right.hit(r, t_min, t_max);
            match (left_hit, right_hit) {
                (Some(lr), Some(rr)) => {
                    if lr.t.raw <= rr.t.raw {
                        Some(lr)
                    } else {
                        Some(rr)
                    }
                },
                (Some(lr), None) => Some(lr),
                (None, Some(rr)) => Some(rr),
                (None, None) => None,
            }
        } else {
            None
        }
    }
}

fn build(v: Vec<Hitable>, t0: Fx, t1: Fx) -> (n: BvhNode)
    requires
        v@.len() >= 1,
    ensures
        bvh_elems(n).to_multiset() == elems_seq(v@).to_multiset(),
        (forall|i: int|
            0 <= i < v@.len() ==> boxed_h(#[trigger] v@[i], t0.raw as int, t1.raw as int))
            ==> bvh_boxed(n, t0.raw as int, t1.raw as int),
    decreases v@.len(),
{
    let mut v = v;
    let ghost orig = v@;
    let axis = random_below(3);
    sort_by_axis(&mut v, axis);
    proof {
        lemma_elems_perm(v@, orig);
        if forall|i: int|
            0 <= i < orig.len() ==> boxed_h(#[trigger] orig[i], t0.raw as int, t1.raw as int) {
            assert forall|i: int| 0 <= i < v@.len() implies boxed_h(
                #[trigger] v@[i],
                t0.raw as int,
                t1.raw as int,
            ) by {
                to_multiset_contains(v@, v@[i]);
                to_multiset_contains(orig, v@[i]);
                assert(orig.contains(v@[i]));
                let j = choose|j: int| 0 <= j < orig.len() && orig[j] == v@[i];
                assert(boxed_h(orig[j], t0.raw as int, t1.raw as int));
            }
        }
    }
    let ghost sorted = v@;
    if v.len() == 1 {
        let x = v.pop().unwrap();
        let bbox = match x.bounding_box(t0, t1) {
            Some(b) => b,
            None => Aabb::new(Vec3::new(), Vec3::new()),
        };
        let node = BvhNode {
            left: Box::new(x),
            right: Box::new(Hitable::List(HitableList::new())),
            bounding_box: bbox,
        };
        proof {
            reveal_with_fuel(elems_prefix, 3);
            lemma_empty_to_multiset();
            assert(elems_of(*node.right) =~= Seq::<Hitable>::empty());
            assert(elems_prefix(sorted, 0) =~= Seq::<Hitable>::empty());
            assert(elems_seq(sorted) =~= Seq::empty() + elems_of(sorted[0]));
            assert(bvh_elems(node) =~= elems_of(sorted[0]) + Seq::empty());
            vstd::seq_lib::lemma_seq_union_to_multiset_commutative(
                elems_of(sorted[0]),
                Seq::empty(),
            );
        }
        node
    } else if v.len() == 2 {
        let second = v.pop().unwrap();
        let first = v.pop().unwrap();
        let box_left = match first.bounding_box(t0, t1) {
            Some(b) => b,
            None => Aabb::new(Vec3::new(), Vec3::new()),
        };
        let box_right = match second.bounding_box(t0, t1) {
            Some(b) => b,
            None => Aabb::new(Vec3::new(), Vec3::new()),
        };
        let bbox = surrounding_box(&box_left, &box_right);
        let node = BvhNode {
            left: Box::new(first),
            right: Box::new(second),
            bounding_box: bbox,
        };
        proof {
            reveal_with_fuel(elems_prefix, 4);
            lemma_empty_to_multiset();
            assert(elems_prefix(sorted, 0) =~= Seq::<Hitable>::empty());
            assert(elems_seq(sorted) =~= (Seq::empty() + elems_of(sorted[0])) + elems_of(
                sorted[1],
            ));
            lemma_multiset_commutative(Seq::empty() + elems_of(sorted[0]), elems_of(sorted[1]));
            lemma_multiset_commutative(Seq::empty(), elems_of(sorted[0]));
            lemma_multiset_commutative(elems_of(sorted[0]), elems_of(sorted[1]));
        }
        node
    } else {
        let half = v.len() / 2;
        let second = v.split_off(half);
        proof {
            assert(sorted =~= v@ + second@);
            lemma_elems_concat(v@, second@);
        }
        let left_node = build(second, t0, t1);
        let right_node = build(v, t0, t1);
        let bbox = surrounding_box(&left_node.bounding_box, &right_node.bounding_box);
        let node = BvhNode {
            left: Box::new(Hitable::Bvh(left_node)),
            right: Box::new(Hitable::Bvh(right_node)),
            bounding_box: bbox,
        };
        proof {
            lemma_multiset_commutative(bvh_elems(left_node), bvh_elems(right_node));
        }
        node
    }
}

/// The window's upper end after an optional hit: the hit parameter, or
/// the incoming bound.
pub open spec fn cl(o: Option<crate::hitable::HitRec>, t_max: int) -> int {
    match o {
        Some(rec) => rec.t,
        None => t_max,
    }
}

/// The nearer of two optional records, the first winning exact ties — the
/// same choice the tree traversal makes between its children.
pub open spec fn nearer(a: Option<crate::hitable::HitRec>, b: Option<crate::hitable::HitRec>) -> Option<
    crate::hitable::HitRec,
> {
    match (a, b) {
        (Some(x), Some(y)) => if x.t <= y.t {
            Some(x)
        } else {
            Some(y)
        },
        (Some(x), None) => Some(x),
        (None, Some(y)) => Some(y),
        (None, None) => None,
    }
}

/// A node with no acceleration structure anywhere inside: its hit result
/// shrinks predictably as the window narrows, which the structures' own
/// box test does not.
pub open spec fn simple_h(h: Hitable) -> bool
    decreases h, 0nat, 0nat,
{
    match h {
        Hitable::Bvh(_) => false,
        Hitable::List(l) => simple_prefix(l.list@, l.list@.len() as int),
        Hitable::Flip(f) => simple_h(*f.child),
        Hitable::BoxObj(b) => simple_prefix(b.hitlist.list@, b.hitlist.list@.len() as int),
        _ => true,
    }
}

pub open spec fn simple_prefix(s: Seq<Hitable>, n: int) -> bool
    decreases s, n, 1nat,
{
    if n <= 0 {
        true
    } else {
        simple_prefix(s, n - 1) && (n <= s.len() ==> simple_h(s[n - 1]))
    }
}

/// The soundness hypothesis for a tree: whenever the primitives under a
/// node (scanned as a flat list) hit, the node's box test passes; with the
/// saturating fixed-point slab arithmetic this can fail for rays grazing a
/// box exactly at a rounded corner, so it is a hypothesis, not a theorem.
pub open spec fn covered_node(n: BvhNode, r: Ray, t_min: int, t_max: int) -> bool
    decreases n, 1nat, 0nat,
{
    &&& (crate::hitable::list_hit_prefix(
        bvh_elems(n),
        bvh_elems(n).len() as int,
        r,
        t_min,
        t_max,
    ) is Some ==> crate::aabb::aabb_hit_spec(n.bounding_box, r, t_min, t_max))
    &&& covered_h(*n.left, r, t_min, t_max)
    &&& covered_h(*n.right, r, t_min, t_max)
}

pub open spec fn covered_h(h: Hitable, r: Ray, t_min: int, t_max: int) -> bool
    decreases h, 0nat, 0nat,
{
    match h {
        Hitable::Bvh(n) => covered_node(n, r, t_min, t_max),
        _ => true,
    }
}

proof fn lemma_sphere_window(
    center: (int, int, int),
    radius: int,
    material: std::rc::Rc<crate::material::Material>,
    r: Ray,
    t_min: int,
    t_max: int,
)
    ensures
        (match crate::hitable::sphere_hit_at(center, radius, material, r, t_min, t_max) {
            Some(rec) => t_min < rec.t && rec.t < t_max,
            None => true,
        }),
{
    reveal(crate::hitable::sphere_rec);
}

proof fn lemma_rect_xy_window(q: crate::hitable::RectSliceXy, r: Ray, t_min: int, t_max: int)
    ensures
        (match crate::hitable::rect_xy_hit(q, r, t_min, t_max) {
            Some(rec) => t_min < rec.t && rec.t < t_max,
            None => true,
        }),
{
}

proof fn lemma_rect_xz_window(q: crate::hitable::RectSliceXz, r: Ray, t_min: int, t_max: int)
    ensures
        (match crate::hitable::rect_xz_hit(q, r, t_min, t_max) {
            Some(rec) => t_min < rec.t && rec.t < t_max,
            None => true,
        }),
{
}

proof fn lemma_rect_yz_window(q: crate::hitable::RectSliceYz, r: Ray, t_min: int, t_max: int)
    ensures
        (match crate::hitable::rect_yz_hit(q, r, t_min, t_max) {
            Some(rec) => t_min < rec.t && rec.t < t_max,
            None => true,
        }),
{
}

/// Any record a node reports lies strictly inside the query window.
#[verifier::rlimit(100)]
#[verifier::spinoff_prover]
pub proof fn lemma_hit_in_window(h: Hitable, r: Ray, t_min: int, t_max: int)
    ensures
        (match crate::hitable::spec_hit(h, r, t_min, t_max) {
            Some(rec) => t_min < rec.t && rec.t < t_max,
            None => true,
        }),
    decreases h, 0nat, 0nat,
{
    match h {
        Hitable::Sphere(sp) => {
            lemma_sphere_window(sp.center.v(), sp.radius.raw as int, sp.material, r, t_min, t_max);
        },
        Hitable::MovingSphere(m) => {
            lemma_sphere_window(
                crate::hitable::moving_center(m, r.time.raw as int),
                m.radius.raw as int,
                m.material,
                r,
                t_min,
                t_max,
            );
        },
        Hitable::RectXy(q) => {
            lemma_rect_xy_window(q, r, t_min, t_max);
        },
        Hitable::RectXz(q) => {
            lemma_rect_xz_window(q, r, t_min, t_max);
        },
        Hitable::RectYz(q) => {
            lemma_rect_yz_window(q, r, t_min, t_max);
        },
        Hitable::Flip(f) => {
            lemma_hit_in_window(*f.child, r, t_min, t_max);
        },
        Hitable::BoxObj(b) => {
            lemma_hit_in_window_prefix(
                b.hitlist.list@,
                b.hitlist.list@.len() as int,
                r,
                t_min,
                t_max,
            );
        },
        Hitable::List(l) => {
            lemma_hit_in_window_prefix(l.list@, l.list@.len() as int, r, t_min, t_max);
        },
        Hitable::Bvh(n) => {
            lemma_hit_in_window(*n.left, r, t_min, t_max);
            lemma_hit_in_window(*n.right, r, t_min, t_max);
            reveal_with_fuel(crate::hitable::spec_hit, 2);
            assert(match crate::hitable::spec_hit(h, r, t_min, t_max) {
                Some(rec) => t_min < rec.t && rec.t < t_max,
                None => true,
            });
        },
        _ => {},
    }
}

/// Any record the in-order scan returns lies strictly inside the query
/// window (a hit exactly at either end of the window is rejected).
pub proof fn lemma_hit_in_window_prefix(s: Seq<Hitable>, n: int, r: Ray, t_min: int, t_max: int)
    ensures
        (match crate::hitable::list_hit_prefix(s, n, r, t_min, t_max) {
            Some(rec) => t_min < rec.t && rec.t < t_max,
            None => true,
        }),
    decreases s, n, 1nat,
{
    if n > 0 {
        lemma_hit_in_window_prefix(s, n - 1, r, t_min, t_max);
        let prev = crate::hitable::list_hit_prefix(s, n - 1, r, t_min, t_max);
        let closest = cl(prev, t_max);
        if 0 < n <= s.len() {
            lemma_hit_in_window(s[n - 1], r, t_min, closest);
        }
    }
}

/// How a sphere's report changes when the window's upper end shrinks from
/// `u2` to `u1`: a hit strictly below `u1` is kept unchanged; otherwise
/// nothing below `u1` appears.
proof fn lemma_sphere_narrow(
    center: (int, int, int),
    radius: int,
    material: std::rc::Rc<crate::material::Material>,
    r: Ray,
    t_min: int,
    u1: int,
    u2: int,
)
    requires
        t_min <= u1 <= u2,
    ensures
        (match crate::hitable::sphere_hit_at(center, radius, material, r, t_min, u2) {
            None => crate::hitable::sphere_hit_at(center, radius, material, r, t_min, u1)
                is None,
            Some(rec) => if rec.t < u1 {
                crate::hitable::sphere_hit_at(center, radius, material, r, t_min, u1) == Some(
                    rec,
                )
            } else {
                crate::hitable::sphere_hit_at(center, radius, material, r, t_min, u1) is None
            },
        }),
{
    reveal(crate::hitable::sphere_rec);
    let oc = crate::vec3::v3sub(r.origin.v(), center);
    let a = crate::vec3::v3dot(r.direction.v(), r.direction.v());
    let b = crate::vec3::v3dot(oc, r.direction.v());
    let c = crate::fx::fx_sub(crate::vec3::v3dot(oc, oc), crate::fx::fx_mul(radius, radius));
    let d = crate::fx::fx_sub(crate::fx::fx_mul(b, b), crate::fx::fx_mul(a, c));
    if d > 0 {
        let sq = crate::fx::fx_sqrt(d);
        crate::vec3::lemma_v3dot_self_nonneg(r.direction.v());
        crate::fx::lemma_fx_div_mono(
            crate::fx::fx_sub(crate::fx::fx_neg(b), sq),
            crate::fx::fx_add(crate::fx::fx_neg(b), sq),
            a,
        );
    }
}

proof fn lemma_rect_xy_narrow(
    q: crate::hitable::RectSliceXy,
    r: Ray,
    t_min: int,
    u1: int,
    u2: int,
)
    requires
        t_min <= u1 <= u2,
    ensures
        (match crate::hitable::rect_xy_hit(q, r, t_min, u2) {
            None => crate::hitable::rect_xy_hit(q, r, t_min, u1) is None,
            Some(rec) => if rec.t < u1 {
                crate::hitable::rect_xy_hit(q, r, t_min, u1) == Some(rec)
            } else {
                crate::hitable::rect_xy_hit(q, r, t_min, u1) is None
            },
        }),
{
}

proof fn lemma_rect_xz_narrow(
    q: crate::hitable::RectSliceXz,
    r: Ray,
    t_min: int,
    u1: int,
    u2: int,
)
    requires
        t_min <= u1 <= u2,
    ensures
        (match crate::hitable::rect_xz_hit(q, r, t_min, u2) {
            None => crate::hitable::rect_xz_hit(q, r, t_min, u1) is None,
            Some(rec) => if rec.t < u1 {
                crate::hitable::rect_xz_hit(q, r, t_min, u1) == Some(rec)
            } else {
                crate::hitable::rect_xz_hit(q, r, t_min, u1) is None
            },
        }),
{
}

proof fn lemma_rect_yz_narrow(
    q: crate::hitable::RectSliceYz,
    r: Ray,
    t_min: int,
    u1: int,
    u2: int,
)
    requires
        t_min <= u1 <= u2,
    ensures
        (match crate::hitable::rect_yz_hit(q, r, t_min, u2) {
            None => crate::hitable::rect_yz_hit(q, r, t_min, u1) is None,
            Some(rec) => if rec.t < u1 {
                crate::hitable::rect_yz_hit(q, r, t_min, u1) == Some(rec)
            } else {
                crate::hitable::rect_yz_hit(q, r, t_min, u1) is None
            },
        }),
{
}

/// Narrowing the window of a structure-free node: a hit strictly below the
/// new upper end is kept unchanged, and anything at or above it vanishes.
#[verifier::rlimit(100)]
#[verifier::spinoff_prover]
pub proof fn lemma_narrow_h(h: Hitable, r: Ray, t_min: int, u1: int, u2: int)
    requires
        simple_h(h),
        t_min <= u1 <= u2,
    ensures
        (match crate::hitable::spec_hit(h, r, t_min, u2) {
            None => crate::hitable::spec_hit(h, r, t_min, u1) is None,
            Some(rec) => if rec.t < u1 {
                crate::hitable::spec_hit(h, r, t_min, u1) == Some(rec)
            } else {
                crate::hitable::spec_hit(h, r, t_min, u1) is None
            },
        }),
    decreases h, 0nat, 0nat,
{
    match h {
        Hitable::Sphere(sp) => {
            lemma_sphere_narrow(
                sp.center.v(),
                sp.radius.raw as int,
                sp.material,
                r,
                t_min,
                u1,
                u2,
            );
        },
        Hitable::MovingSphere(m) => {
            lemma_sphere_narrow(
                crate::hitable::moving_center(m, r.time.raw as int),
                m.radius.raw as int,
                m.material,
                r,
                t_min,
                u1,
                u2,
            );
        },
        Hitable::RectXy(q) => {
            lemma_rect_xy_narrow(q, r, t_min, u1, u2);
        },
        Hitable::RectXz(q) => {
            lemma_rect_xz_narrow(q, r, t_min, u1, u2);
        },
        Hitable::RectYz(q) => {
            lemma_rect_yz_narrow(q, r, t_min, u1, u2);
        },
        Hitable::Flip(f) => {
            lemma_narrow_h(*f.child, r, t_min, u1, u2);
        },
        Hitable::BoxObj(b) => {
            lemma_narrow_prefix(
                b.hitlist.list@,
                b.hitlist.list@.len() as int,
                r,
                t_min,
                u1,
                u2,
            );
        },
        Hitable::List(l) => {
            lemma_narrow_prefix(l.list@, l.list@.len() as int, r, t_min, u1, u2);
        },
        _ => {},
    }
}

/// The scan over a prefix narrows the same way its elements do.
#[verifier::rlimit(100)]
#[verifier::spinoff_prover]
proof fn lemma_narrow_prefix(s: Seq<Hitable>, n: int, r: Ray, t_min: int, u1: int, u2: int)
    requires
        simple_prefix(s, n),
        t_min <= u1 <= u2,
    ensures
        (match crate::hitable::list_hit_prefix(s, n, r, t_min, u2) {
            None => crate::hitable::list_hit_prefix(s, n, r, t_min, u1) is None,
            Some(rec) => if rec.t < u1 {
                crate::hitable::list_hit_prefix(s, n, r, t_min, u1) == Some(rec)
            } else {
                crate::hitable::list_hit_prefix(s, n, r, t_min, u1) is None
            },
        }),
    decreases s, n, 1nat,
{
    if n > 0 {
        lemma_narrow_prefix(s, n - 1, r, t_min, u1, u2);
        lemma_hit_in_window_prefix(s, n - 1, r, t_min, u1);
        lemma_hit_in_window_prefix(s, n - 1, r, t_min, u2);
        let prev1 = crate::hitable::list_hit_prefix(s, n - 1, r, t_min, u1);
        let prev2 = crate::hitable::list_hit_prefix(s, n - 1, r, t_min, u2);
        let c1 = cl(prev1, u1);
        let c2 = cl(prev2, u2);
        assert(t_min <= c1 <= u1);
        assert(c1 <= c2);
        if 0 < n <= s.len() {
            lemma_narrow_h(s[n - 1], r, t_min, c1, c2);
            lemma_hit_in_window(s[n - 1], r, t_min, c1);
            lemma_hit_in_window(s[n - 1], r, t_min, c2);
        }
    }
}

/// The scan only reads the first `n` entries.
proof fn lemma_lh_congruent(s1: Seq<Hitable>, s2: Seq<Hitable>, n: int, r: Ray, t_min: int, t_max: int)
    requires
        forall|i: int| 0 <= i < n ==> i < s1.len() && i < s2.len() && s1[i] == s2[i],
        n <= s1.len() && n <= s2.len(),
    ensures
        crate::hitable::list_hit_prefix(s1, n, r, t_min, t_max) == crate::hitable::list_hit_prefix(
            s2,
            n,
            r,
            t_min,
            t_max,
        ),
    decreases n,
{
    if n > 0 {
        lemma_lh_congruent(s1, s2, n - 1, r, t_min, t_max);
    }
}

proof fn lemma_simple_prefix_index(s: Seq<Hitable>, n: int, i: int)
    requires
        simple_prefix(s, n),
        0 <= i < n,
        i < s.len(),
    ensures
        simple_h(s[i]),
    decreases n,
{
    if i < n - 1 {
        lemma_simple_prefix_index(s, n - 1, i);
    }
}

proof fn lemma_simple_prefix_from_forall(s: Seq<Hitable>, n: int)
    requires
        forall|i: int| 0 <= i < n && i < s.len() ==> simple_h(#[trigger] s[i]),
    ensures
        simple_prefix(s, n),
    decreases n,
{
    if n > 0 {
        lemma_simple_prefix_from_forall(s, n - 1);
    }
}

/// Scanning a concatenation returns the nearer of the two sides' results,
/// the first side winning exact ties.
#[verifier::rlimit(100)]
#[verifier::spinoff_prover]
proof fn lemma_concat_prefix(s1: Seq<Hitable>, s2: Seq<Hitable>, n2: int, r: Ray, t_min: int, t_max: int)
    requires
        simple_prefix(s1, s1.len() as int),
        simple_prefix(s2, n2),
        0 <= n2 <= s2.len(),
        t_min <= t_max,
    ensures
        crate::hitable::list_hit_prefix(s1 + s2, s1.len() + n2, r, t_min, t_max) == nearer(
            crate::hitable::list_hit_prefix(s1, s1.len() as int, r, t_min, t_max),
            crate::hitable::list_hit_prefix(s2, n2, r, t_min, t_max),
        ),
    decreases n2,
{
    let s = s1 + s2;
    let n1 = s1.len() as int;
    if n2 == 0 {
        lemma_lh_congruent(s, s1, n1, r, t_min, t_max);
    } else {
        lemma_concat_prefix(s1, s2, n2 - 1, r, t_min, t_max);
        lemma_hit_in_window_prefix(s, n1 + n2 - 1, r, t_min, t_max);
        lemma_hit_in_window_prefix(s1, n1, r, t_min, t_max);
        lemma_hit_in_window_prefix(s2, n2 - 1, r, t_min, t_max);
        let prev12 = crate::hitable::list_hit_prefix(s, n1 + n2 - 1, r, t_min, t_max);
        let prev2 = crate::hitable::list_hit_prefix(s2, n2 - 1, r, t_min, t_max);
        let ca = cl(prev12, t_max);
        let cb = cl(prev2, t_max);
        let x = s2[n2 - 1];
        assert(s[n1 + n2 - 1] == x);
        assert(simple_h(x)) by {
            lemma_simple_prefix_index(s2, n2, n2 - 1);
        }
        assert(t_min <= ca <= cb);
        lemma_narrow_h(x, r, t_min, ca, cb);
        lemma_hit_in_window(x, r, t_min, ca);
        lemma_hit_in_window(x, r, t_min, cb);
    }
}

/// Unrolling of the in-order scan at the full window: the result over the
/// first `n` children is the nearer of the result over the first `n - 1`
/// and the last child's own full-window hit, earlier children winning
/// exact ties.  Unrolled fully, the scan returns the record of the child
/// attaining the minimum hit parameter.
#[verifier::rlimit(100)]
#[verifier::spinoff_prover]
pub proof fn lemma_scan_step_full_window(s: Seq<Hitable>, n: int, r: Ray, t_min: int, t_max: int)
    requires
        simple_prefix(s, n),
        0 < n <= s.len(),
        t_min <= t_max,
    ensures
        crate::hitable::list_hit_prefix(s, n, r, t_min, t_max) == nearer(
            crate::hitable::list_hit_prefix(s, n - 1, r, t_min, t_max),
            crate::hitable::spec_hit(s[n - 1], r, t_min, t_max),
        ),
{
    let s1 = s.subrange(0, n - 1);
    let s2 = seq![s[n - 1]];
    assert forall|i: int| 0 <= i < n - 1 && i < s1.len() implies simple_h(#[trigger] s1[i]) by {
        lemma_simple_prefix_index(s, n, i);
    }
    lemma_simple_prefix_from_forall(s1, n - 1);
    assert(simple_h(s[n - 1])) by {
        lemma_simple_prefix_index(s, n, n - 1);
    }
    lemma_simple_prefix_from_forall(s2, 1);
    lemma_concat_prefix(s1, s2, 1, r, t_min, t_max);
    lemma_lh_congruent(s1 + s2, s, n, r, t_min, t_max);
    lemma_lh_congruent(s1, s, n - 1, r, t_min, t_max);
    reveal_with_fuel(crate::hitable::list_hit_prefix, 3);
    assert(crate::hitable::list_hit_prefix(s2, 1, r, t_min, t_max) == crate::hitable::spec_hit(
        s[n - 1],
        r,
        t_min,
        t_max,
    ));
}

/// A child of a tree node scans like the flat list of its primitives.
#[verifier::rlimit(100)]
#[verifier::spinoff_prover]
proof fn lemma_child_matches_elems(h: Hitable, r: Ray, t_min: int, t_max: int)
    requires
        covered_h(h, r, t_min, t_max),
        simple_prefix(elems_of(h), elems_of(h).len() as int),
        t_min <= t_max,
    ensures
        crate::hitable::spec_hit(h, r, t_min, t_max) == crate::hitable::list_hit_prefix(
            elems_of(h),
            elems_of(h).len() as int,
            r,
            t_min,
            t_max,
        ),
    decreases h, 2nat, 0nat,
{
    match h {
        Hitable::Bvh(n) => {
            assert(elems_of(h) == bvh_elems(n));
            assert(covered_node(n, r, t_min, t_max));
            lemma_bvh_matches_list(n, r, t_min, t_max);
            assert(crate::hitable::spec_hit(h, r, t_min, t_max) == crate::hitable::bvh_hit_spec(
                n,
                r,
                t_min,
                t_max,
            ));
            assert(crate::hitable::bvh_hit_spec(n, r, t_min, t_max)
                == crate::hitable::list_hit_prefix(
                elems_of(h),
                elems_of(h).len() as int,
                r,
                t_min,
                t_max,
            ));
        },
        Hitable::List(l) => {
            if l.list@.len() == 0 {
                reveal_with_fuel(crate::hitable::spec_hit, 2);
                reveal_with_fuel(crate::hitable::list_hit_prefix, 2);
                assert(elems_of(h).len() == 0);
                assert(elems_of(h) =~= Seq::<Hitable>::empty());
                assert(crate::hitable::list_hit_prefix(
                    elems_of(h),
                    elems_of(h).len() as int,
                    r,
                    t_min,
                    t_max,
                ) is None);
                assert(crate::hitable::spec_hit(h, r, t_min, t_max) is None);
            } else {
                assert(elems_of(h) =~= seq![h]);
                reveal_with_fuel(crate::hitable::list_hit_prefix, 3);
                assert(crate::hitable::spec_hit(h, r, t_min, t_max)
                    == crate::hitable::list_hit_prefix(
                    elems_of(h),
                    elems_of(h).len() as int,
                    r,
                    t_min,
                    t_max,
                ));
            }
        },
        _ => {
            assert(elems_of(h) =~= seq![h]);
            reveal_with_fuel(crate::hitable::list_hit_prefix, 3);
            assert(crate::hitable::spec_hit(h, r, t_min, t_max)
                == crate::hitable::list_hit_prefix(
                elems_of(h),
                elems_of(h).len() as int,
                r,
                t_min,
                t_max,
            ));
        },
    }
}

/// The acceleration structure returns the very record — parameter, point,
/// normal, texture coordinates and material — that a flat scan over the
/// primitives it holds returns, for any ray and window, as long as every
/// node box admits the rays its primitives admit (`covered_node`) and the
/// primitives hold no nested structure of their own.
#[verifier::rlimit(100)]
#[verifier::spinoff_prover]
pub proof fn lemma_bvh_matches_list(n: BvhNode, r: Ray, t_min: int, t_max: int)
    requires
        covered_node(n, r, t_min, t_max),
        simple_prefix(bvh_elems(n), bvh_elems(n).len() as int),
        t_min <= t_max,
    ensures
        crate::hitable::bvh_hit_spec(n, r, t_min, t_max) == crate::hitable::list_hit_prefix(
            bvh_elems(n),
            bvh_elems(n).len() as int,
            r,
            t_min,
            t_max,
        ),
    decreases n, 3nat, 0nat,
{
    let el = elems_of(*n.left);
    let er = elems_of(*n.right);
    assert(bvh_elems(n) == el + er);
    assert forall|i: int| 0 <= i < el.len() && i < el.len() implies simple_h(#[trigger] el[i]) by {
        assert(el[i] == (el + er)[i]);
        lemma_simple_prefix_index(el + er, (el + er).len() as int, i);
    }
    assert forall|i: int| 0 <= i < er.len() && i < er.len() implies simple_h(#[trigger] er[i]) by {
        assert(er[i] == (el + er)[el.len() + i]);
        lemma_simple_prefix_index(el + er, (el + er).len() as int, el.len() + i);
    }
    assert(simple_prefix(el, el.len() as int)) by {
        lemma_simple_prefix_from_forall(el, el.len() as int);
    }
    assert(simple_prefix(er, er.len() as int)) by {
        lemma_simple_prefix_from_forall(er, er.len() as int);
    }
    if crate::aabb::aabb_hit_spec(n.bounding_box, r, t_min, t_max) {
        lemma_child_matches_elems(*n.left, r, t_min, t_max);
        lemma_child_matches_elems(*n.right, r, t_min, t_max);
        lemma_concat_prefix(el, er, er.len() as int, r, t_min, t_max);
        lemma_hit_in_window(*n.left, r, t_min, t_max);
        lemma_hit_in_window(*n.right, r, t_min, t_max);
        reveal_with_fuel(crate::hitable::spec_hit, 2);
    } else {
        assert(crate::hitable::list_hit_prefix(
            bvh_elems(n),
            bvh_elems(n).len() as int,
            r,
            t_min,
            t_max,
        ) is None);
    }
}

} // verus!
