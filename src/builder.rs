//! The edge graph builder: walks a triangle index stream and emits each
//! selected edge once, in the orientation in which it was first met.

use std::collections::HashSet;
use vstd::prelude::*;
use crate::edge_id::{canonical, edge_key, lemma_pair_key_injective, pair_key};
use crate::mesh::all_below;

verus! {

broadcast use vstd::std_specs::hash::group_hash_axioms;

/// The tag bit pattern is a floating-point zero (of either sign).
pub open spec fn tag_is_zero(t: u32) -> bool {
    t & 0x7fff_ffff == 0
}

/// The tag bit pattern is a floating-point NaN.
pub open spec fn tag_is_nan(t: u32) -> bool {
    t & 0x7fff_ffff > 0x7f80_0000
}

/// Floating-point equality of two tag bit patterns: no NaN is equal to
/// anything, and the two zeros are equal to each other.
pub open spec fn tags_equal(a: u32, b: u32) -> bool {
    &&& !tag_is_nan(a)
    &&& !tag_is_nan(b)
    &&& (a == b || (tag_is_zero(a) && tag_is_zero(b)))
}

/// Two endpoint tags mark their edge as selected: they are equal and nonzero.
pub open spec fn tags_select(a: u32, b: u32) -> bool {
    tags_equal(a, b) && !tag_is_zero(a)
}

/// Decides whether the tags of two endpoints select their edge.
pub fn tags_select_edge(a: u32, b: u32) -> (r: bool)
    ensures
        r == tags_select(a, b),
{
    let ma = a & 0x7fff_ffff;
    let mb = b & 0x7fff_ffff;
    let equal = ma <= 0x7f80_0000 && mb <= 0x7f80_0000 && (a == b || (ma == 0 && mb == 0));
    equal && ma != 0
}

/// Which triangle edges are candidates for the output.
pub enum Selection {
    /// Every triangle edge.
    Unconditional,
    /// The edges whose endpoint tags select them; one tag per vertex.
    TagFiltered(Vec<u32>),
}

/// The mathematical form of a [`Selection`].
pub enum Policy {
    Unconditional,
    TagFiltered(Seq<u32>),
}

impl View for Selection {
    type V = Policy;

    open spec fn view(&self) -> Policy {
        match self {
            Selection::Unconditional => Policy::Unconditional,
            Selection::TagFiltered(t) => Policy::TagFiltered(t@),
        }
    }
}

impl Policy {
    /// The policy admits the edge `e`.
    pub open spec fn admits(self, e: (u32, u32)) -> bool {
        match self {
            Policy::Unconditional => true,
            Policy::TagFiltered(t) => tags_select(t[e.0 as int], t[e.1 as int]),
        }
    }

    /// The policy can look up the tag of every index of `ix`.
    pub open spec fn covers(self, ix: Seq<u32>) -> bool {
        match self {
            Policy::Unconditional => true,
            Policy::TagFiltered(t) => all_below(ix, t.len()),
        }
    }
}

/// The `k`-th candidate edge of the index stream `ix`: triangle `k / 3`
/// contributes `(a, b)`, `(b, c)`, `(c, a)` in that order.
pub open spec fn candidate(ix: Seq<u32>, k: int) -> (u32, u32) {
    let t = (k / 3) * 3;
    if k % 3 == 0 {
        (ix[t], ix[t + 1])
    } else if k % 3 == 1 {
        (ix[t + 1], ix[t + 2])
    } else {
        (ix[t + 2], ix[t])
    }
}

/// The edges of every complete triangle of `ix`, in order; a trailing
/// partial triangle contributes none.
pub open spec fn triangle_edges(ix: Seq<u32>) -> Seq<(u32, u32)> {
    Seq::new((3 * (ix.len() / 3)) as nat, |k: int| candidate(ix, k))
}

/// The canonical forms of the edges of `s`.
pub open spec fn canonical_set(s: Seq<(u32, u32)>) -> Set<(u32, u32)>
    decreases s.len(),
{
    if s.len() == 0 {
        Set::empty()
    } else {
        canonical_set(s.drop_last()).insert(canonical(s.last().0, s.last().1))
    }
}

/// Both ends of every edge of `s` are below `len`.
pub open spec fn ends_below(s: Seq<(u32, u32)>, len: nat) -> bool {
    forall|i: int| 0 <= i < s.len() ==> (#[trigger] s[i]).0 < len && s[i].1 < len
}

/// The triangle edges of an index stream join indices of that stream.
pub proof fn lemma_triangle_edges_below(ix: Seq<u32>, len: nat)
    requires
        all_below(ix, len),
    ensures
        ends_below(triangle_edges(ix), len),
{
    let c = triangle_edges(ix);
    assert forall|k: int| 0 <= k < c.len() implies (#[trigger] c[k]).0 < len && c[k].1 < len by {
        let t = (k / 3) * 3;
        assert(0 <= t && t + 2 < ix.len()) by (nonlinear_arith)
            requires
                0 <= k < 3 * (ix.len() / 3),
                t == (k / 3) * 3,
        ;
        assert(ix[t] < len && ix[t + 1] < len && ix[t + 2] < len);
    }
}

/// One builder step: `e` is appended when the policy admits it and no edge
/// of `prev` has the same canonical form.
pub open spec fn step(prev: Seq<(u32, u32)>, policy: Policy, e: (u32, u32)) -> Seq<(u32, u32)> {
    if policy.admits(e) && !canonical_set(prev).contains(canonical(e.0, e.1)) {
        prev.push(e)
    } else {
        prev
    }
}

/// The builder's output on the candidate sequence `c`.
pub open spec fn emitted(c: Seq<(u32, u32)>, policy: Policy) -> Seq<(u32, u32)>
    decreases c.len(),
{
    if c.len() == 0 {
        Seq::empty()
    } else {
        step(emitted(c.drop_last(), policy), policy, c.last())
    }
}

/// The set of seen keys holds exactly the keys of the canonical forms of `out`.
pub open spec fn keys_of(seen: Set<u64>, out: Seq<(u32, u32)>) -> bool {
    forall|c: (u32, u32)| #[trigger] seen.contains(pair_key(c)) <==> canonical_set(out).contains(c)
}

fn add_edge(
    seen: &mut HashSet<u64>,
    out: &mut Vec<(u32, u32)>,
    policy: &Selection,
    v1: u32,
    v2: u32,
)
    requires
        keys_of(old(seen)@, old(out)@),
        policy@.covers(seq![v1, v2]),
    ensures
        keys_of(final(seen)@, final(out)@),
        final(out)@ == step(old(out)@, policy@, (v1, v2)),
{
    let wanted = match policy {
        Selection::Unconditional => true,
        Selection::TagFiltered(t) => {
            assert(seq![v1, v2][0] == v1 && seq![v1, v2][1] == v2);
            tags_select_edge(t[v1 as usize], t[v2 as usize])
        },
    };
    if wanted {
        let key = edge_key(v1, v2);
        let ghost c = canonical(v1, v2);
        let ghost before = out@;
        proof {
            lemma_pair_key_injective(c, c);
        }
        let fresh = seen.insert(key);
        if fresh {
            out.push((v1, v2));
            proof {
                assert(out@.drop_last() =~= before);
                assert forall|d: (u32, u32)| #[trigger] seen@.contains(pair_key(d))
                    <==> canonical_set(out@).contains(d) by {
                    lemma_pair_key_injective(c, d);
                }
            }
        }
    }
}

/// Builds the deduplicated edge list of the triangles of `indices` under
/// `policy`. Each admitted edge is emitted once, oriented as first met.
pub fn build_edge_list(indices: &Vec<u32>, policy: &Selection) -> (r: Vec<(u32, u32)>)
    requires
        policy@.covers(indices@),
    ensures
        r@ == emitted(triangle_edges(indices@), policy@),
{
    let ghost ix = indices@;
    let ghost cands = triangle_edges(ix);
    let mut seen: HashSet<u64> = HashSet::new();
    let mut out: Vec<(u32, u32)> = Vec::new();
    let n = indices.len() / 3;
    let mut t: usize = 0;
    assert(cands.take(0) =~= Seq::<(u32, u32)>::empty());
    while t < n
        invariant
            n == indices.len() / 3,
            t <= n,
            ix == indices@,
            cands == triangle_edges(ix),
            policy@.covers(ix),
            keys_of(seen@, out@),
            out@ == emitted(cands.take(3 * t as int), policy@),
        decreases n - t,
    {
        let a = indices[3 * t];
        let b = indices[3 * t + 1];
        let c = indices[3 * t + 2];
        let ghost k = 3 * t as int;
        assert(cands[k] == (a, b));
        assert(cands[k + 1] == (b, c));
        assert(cands[k + 2] == (c, a));
        assert(seq![a, b][0] == a && seq![a, b][1] == b);
        assert(seq![b, c][0] == b && seq![b, c][1] == c);
        assert(seq![c, a][0] == c && seq![c, a][1] == a);
        add_edge(&mut seen, &mut out, policy, a, b);
        assert(cands.take(k + 1).drop_last() =~= cands.take(k));
        assert(cands.take(k + 1).last() == cands[k]);
        assert(out@ == emitted(cands.take(k + 1), policy@));
        add_edge(&mut seen, &mut out, policy, b, c);
        assert(cands.take(k + 2).drop_last() =~= cands.take(k + 1));
        assert(cands.take(k + 2).last() == cands[k + 1]);
        assert(out@ == emitted(cands.take(k + 2), policy@));
        add_edge(&mut seen, &mut out, policy, c, a);
        assert(cands.take(k + 3).drop_last() =~= cands.take(k + 2));
        assert(cands.take(k + 3).last() == cands[k + 2]);
        assert(out@ == emitted(cands.take(k + 3), policy@));
        t += 1;
    }
    assert(cands.take(3 * n as int) =~= cands);
    out
}

/// The output never holds two edges with the same canonical form.
pub proof fn emitted_edges_are_distinct(c: Seq<(u32, u32)>, policy: Policy)
    ensures
        canonical_set(emitted(c, policy)).finite(),
        canonical_set(emitted(c, policy)).len() == emitted(c, policy).len(),
    decreases c.len(),
{
    if c.len() > 0 {
        let prev = emitted(c.drop_last(), policy);
        emitted_edges_are_distinct(c.drop_last(), policy);
        let e = c.last();
        if policy.admits(e) && !canonical_set(prev).contains(canonical(e.0, e.1)) {
            assert(prev.push(e).drop_last() =~= prev);
        }
    }
}

/// Under the unconditional policy every candidate edge is covered: the
/// canonical forms of the output are those of the input.
pub proof fn unconditional_covers_every_edge(c: Seq<(u32, u32)>)
    ensures
        canonical_set(emitted(c, Policy::Unconditional)) == canonical_set(c),
    decreases c.len(),
{
    if c.len() > 0 {
        let prev = emitted(c.drop_last(), Policy::Unconditional);
        unconditional_covers_every_edge(c.drop_last());
        let e = c.last();
        let k = canonical(e.0, e.1);
        if !canonical_set(prev).contains(k) {
            assert(prev.push(e).drop_last() =~= prev);
        } else {
            assert(canonical_set(prev).insert(k) =~= canonical_set(prev));
        }
    }
}

/// Under the unconditional policy, the output of a triangle list holds one
/// edge for each distinct canonical edge of its triangles, and no other.
pub proof fn unconditional_emits_each_edge_once(ix: Seq<u32>)
    ensures
        emitted(triangle_edges(ix), Policy::Unconditional).len() == canonical_set(
            triangle_edges(ix),
        ).len(),
        canonical_set(emitted(triangle_edges(ix), Policy::Unconditional)) == canonical_set(
            triangle_edges(ix),
        ),
{
    emitted_edges_are_distinct(triangle_edges(ix), Policy::Unconditional);
    unconditional_covers_every_edge(triangle_edges(ix));
}

/// Every edge emitted under tag filtering joins two vertices whose tags are
/// nonzero and equal.
pub proof fn tag_filter_emits_only_selected(c: Seq<(u32, u32)>, tags: Seq<u32>)
    ensures
        forall|i: int|
            0 <= i < emitted(c, Policy::TagFiltered(tags)).len() ==> {
                let e = #[trigger] emitted(c, Policy::TagFiltered(tags))[i];
                &&& !tag_is_zero(tags[e.0 as int])
                &&& tags_equal(tags[e.0 as int], tags[e.1 as int])
            },
    decreases c.len(),
{
    if c.len() > 0 {
        let policy = Policy::TagFiltered(tags);
        tag_filter_emits_only_selected(c.drop_last(), tags);
        let prev = emitted(c.drop_last(), policy);
        let out = emitted(c, policy);
        assert forall|i: int| 0 <= i < out.len() implies policy.admits(#[trigger] out[i]) by {
            if i < prev.len() {
                assert(out[i] == prev[i]);
            }
        }
    }
}

/// The builder only emits edges that it was given.
pub proof fn lemma_emitted_below(c: Seq<(u32, u32)>, policy: Policy, len: nat)
    requires
        ends_below(c, len),
    ensures
        ends_below(emitted(c, policy), len),
    decreases c.len(),
{
    if c.len() > 0 {
        assert(ends_below(c.drop_last(), len)) by {
            assert forall|i: int| 0 <= i < c.drop_last().len() implies (#[trigger] c.drop_last()[i]).0
                < len && c.drop_last()[i].1 < len by {
                assert(c.drop_last()[i] == c[i]);
            }
        }
        lemma_emitted_below(c.drop_last(), policy, len);
        let prev = emitted(c.drop_last(), policy);
        let out = emitted(c, policy);
        assert forall|i: int| 0 <= i < out.len() implies (#[trigger] out[i]).0 < len && out[i].1
            < len by {
            if i < prev.len() {
                assert(out[i] == prev[i]);
            }
        }
    }
}

} // verus!
