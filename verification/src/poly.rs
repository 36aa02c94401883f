//! Winding-number test for a point against a closed polygon ring.
//!
//! A ring is stored flat, `x0, y0, x1, y1, ...`, with the first vertex
//! repeated as the last. The test is exact over the fixed-point integer
//! coordinates; coordinates are bounded by [`COORD_LIMIT`] so that the
//! cross products below stay within `i128`.

use vstd::prelude::*;

verus! {

/// Largest magnitude a ring or query coordinate may have.
pub const COORD_LIMIT: i64 = 0x2000_0000_0000_0000;

/// One coordinate is small enough for exact cross products.
pub open spec fn coord_in_range(c: i64) -> bool {
    -COORD_LIMIT <= c <= COORD_LIMIT
}

/// Every coordinate of the flat ring is in range.
pub open spec fn coords_in_range(p: Seq<i64>) -> bool {
    forall|i: int| 0 <= i < p.len() ==> coord_in_range(#[trigger] p[i])
}

/// A flat ring is well formed: whole coordinate pairs, at least one pair,
/// few enough edges for the winding count to fit `i32`, and coordinates in
/// range. Closure (first pair equal to the last) is the caller's charge;
/// the winding number of an open ring is computed but means nothing.
pub open spec fn ring_wf(p: Seq<i64>) -> bool {
    &&& p.len() >= 2
    &&& p.len() % 2 == 0
    &&& p.len() <= 0x8000_0000
    &&& coords_in_range(p)
}

/// Cross product telling on which side of the directed edge
/// `(x0, y0) -> (x1, y1)` the point `(x, y)` lies: positive means left.
pub open spec fn cross(x0: int, y0: int, x1: int, y1: int, x: int, y: int) -> int {
    (x1 - x0) * (y - y0) - (x - x0) * (y1 - y0)
}

/// Number of edges of the flat ring.
pub open spec fn num_edges(p: Seq<i64>) -> int {
    if p.len() >= 2 {
        (p.len() - 2) as int / 2
    } else {
        0
    }
}

/// Contribution of edge `k` to the winding number: `+1` for an upward edge
/// crossing the horizontal at `y` with the point strictly to its left,
/// `-1` for a downward crossing with the point strictly to its right,
/// `0` otherwise (horizontal edges contribute nothing).
pub open spec fn edge_delta(p: Seq<i64>, x: int, y: int, k: int) -> int {
    let x0 = p[2 * k] as int;
    let y0 = p[2 * k + 1] as int;
    let x1 = p[2 * k + 2] as int;
    let y1 = p[2 * k + 3] as int;
    if y0 <= y && y1 > y && cross(x0, y0, x1, y1, x, y) > 0 {
        1
    } else if y0 > y && y1 <= y && cross(x0, y0, x1, y1, x, y) < 0 {
        -1
    } else {
        0
    }
}

/// Sum of the contributions of the first `k` edges.
pub open spec fn wn_upto(p: Seq<i64>, x: int, y: int, k: int) -> int
    decreases k,
{
    if k <= 0 {
        0
    } else {
        wn_upto(p, x, y, k - 1) + edge_delta(p, x, y, k - 1)
    }
}

/// Winding number of the closed ring `p` around `(x, y)`: the signed count
/// of full turns the ring makes around the point. Non-zero means enclosed.
pub open spec fn wn_spec(p: Seq<i64>, x: int, y: int) -> int {
    wn_upto(p, x, y, num_edges(p))
}

proof fn lemma_cross_product_bound(a: int, b: int)
    requires
        -(2 * COORD_LIMIT) <= a <= 2 * COORD_LIMIT,
        -(2 * COORD_LIMIT) <= b <= 2 * COORD_LIMIT,
    ensures
        -(4 * COORD_LIMIT * COORD_LIMIT) <= a * b <= 4 * COORD_LIMIT * COORD_LIMIT,
{
    assert(-(4 * 0x2000_0000_0000_0000 * 0x2000_0000_0000_0000) <= a * b <= 4
        * 0x2000_0000_0000_0000 * 0x2000_0000_0000_0000) by (nonlinear_arith)
        requires
            -(2 * 0x2000_0000_0000_0000) <= a <= 2 * 0x2000_0000_0000_0000,
            -(2 * 0x2000_0000_0000_0000) <= b <= 2 * 0x2000_0000_0000_0000,
    ;
}

/// Winding number of the flat closed ring `p` around `(x, y)`.
pub fn wn(p: &Vec<i64>, x: i64, y: i64) -> (r: i32)
    requires
        ring_wf(p@),
        coord_in_range(x),
        coord_in_range(y),
    ensures
        r as int == wn_spec(p@, x as int, y as int),
{
    let n: usize = p.len();
    let ne: usize = (n - 2) / 2;
    let mut w: i32 = 0;
    let mut k: usize = 0;
    while k < ne
        invariant
            ring_wf(p@),
            coord_in_range(x),
            coord_in_range(y),
            n == p@.len(),
            ne == num_edges(p@),
            0 <= k <= ne,
            w as int == wn_upto(p@, x as int, y as int, k as int),
            -(k as int) <= w as int <= k as int,
        decreases ne - k,
    {
        let x0: i64 = p[2 * k];
        let y0: i64 = p[2 * k + 1];
        let x1: i64 = p[2 * k + 2];
        let y1: i64 = p[2 * k + 3];
        let a: i128 = x1 as i128 - x0 as i128;
        let b: i128 = y as i128 - y0 as i128;
        let c: i128 = x as i128 - x0 as i128;
        let d: i128 = y1 as i128 - y0 as i128;
        proof {
            lemma_cross_product_bound(a as int, b as int);
            lemma_cross_product_bound(c as int, d as int);
        }
        let cr: i128 = a * b - c * d;
        proof {
            assert(cr as int == cross(x0 as int, y0 as int, x1 as int, y1 as int, x as int,
                y as int));
        }
        if y0 <= y {
            if y1 > y {
                if cr > 0 {
                    w = w + 1;
                }
            }
        } else {
            if y1 <= y {
                if cr < 0 {
                    w = w - 1;
                }
            }
        }
        k = k + 1;
    }
    w
}

} // verus!
