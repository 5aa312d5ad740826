//! Edge identity: canonical (order-free) form of an index pair, the integer
//! key that the builder deduplicates on, and position-derived edges.

use vstd::prelude::*;

verus! {

/// The canonical form of the unordered pair `{a, b}`: smaller index first.
pub open spec fn canonical(a: u32, b: u32) -> (u32, u32) {
    if a < b {
        (a, b)
    } else {
        (b, a)
    }
}

/// The deduplication key of a canonical pair: both indices packed in 64 bits.
pub open spec fn pair_key(c: (u32, u32)) -> u64 {
    (c.0 as int * 0x1_0000_0000 + c.1 as int) as u64
}

/// Orders an index pair canonically (smaller first).
pub fn canonicalize(v1: u32, v2: u32) -> (r: (u32, u32))
    ensures
        r == canonical(v1, v2),
{
    if v1 < v2 {
        (v1, v2)
    } else {
        (v2, v1)
    }
}

/// The key of the canonical form of `{v1, v2}`.
pub fn edge_key(v1: u32, v2: u32) -> (k: u64)
    ensures
        k == pair_key(canonical(v1, v2)),
{
    let (lo, hi) = canonicalize(v1, v2);
    proof {
        assert(lo as int * 0x1_0000_0000 + hi as int <= u64::MAX) by (nonlinear_arith)
            requires
                lo <= u32::MAX,
                hi <= u32::MAX,
        ;
    }
    (lo as u64) * 0x1_0000_0000 + (hi as u64)
}

/// Distinct pairs have distinct keys.
pub proof fn lemma_pair_key_injective(c: (u32, u32), d: (u32, u32))
    ensures
        pair_key(c) == pair_key(d) <==> c == d,
{
    let x = c.0 as int * 0x1_0000_0000 + c.1 as int;
    let y = d.0 as int * 0x1_0000_0000 + d.1 as int;
    assert(0 <= x <= u64::MAX && 0 <= y <= u64::MAX) by (nonlinear_arith)
        requires
            0 <= c.0 <= u32::MAX,
            0 <= c.1 <= u32::MAX,
            0 <= d.0 <= u32::MAX,
            0 <= d.1 <= u32::MAX,
            x == c.0 as int * 0x1_0000_0000 + c.1 as int,
            y == d.0 as int * 0x1_0000_0000 + d.1 as int,
    ;
    if x == y {
        assert(c.0 == d.0 && c.1 == d.1) by (nonlinear_arith)
            requires
                0 <= c.1 < 0x1_0000_0000,
                0 <= d.1 < 0x1_0000_0000,
                x == c.0 as int * 0x1_0000_0000 + c.1 as int,
                y == d.0 as int * 0x1_0000_0000 + d.1 as int,
                x == y,
        ;
    }
}

/// The canonical form does not depend on the order of the two indices.
pub proof fn canonical_is_symmetric(a: u32, b: u32)
    ensures
        canonical(a, b) == canonical(b, a),
{
}

/// An edge identified by the quantized positions of its two ends rather
/// than by vertex indices. The ends keep the order in which they were given:
/// the two orientations of one segment are different values.
#[derive(Clone, Copy, Debug, PartialEq, Eq, Hash)]
pub struct IntEdge {
    pub p1: [i32; 3],
    pub p2: [i32; 3],
}

} // verus!
