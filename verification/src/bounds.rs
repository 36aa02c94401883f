//! Spatial admissibility predicate: unbounded, axis-aligned box, or
//! simple polygon tested by winding number.

use crate::poly::{coord_in_range, coords_in_range, ring_wf, wn, wn_spec, COORD_LIMIT};
use vstd::prelude::*;

verus! {

/// Inclusive axis-aligned bounding box over fixed-point coordinates.
#[derive(Clone, Copy)]
pub struct Bbox {
    pub xmin: i64,
    pub ymin: i64,
    pub xmax: i64,
    pub ymax: i64,
}

impl Bbox {
    /// Whether `(lon, lat)` lies inside the box, all four bounds inclusive.
    pub fn contains(&self, lon: i64, lat: i64) -> (r: bool)
        ensures
            r == (self.xmin <= lon <= self.xmax && self.ymin <= lat <= self.ymax),
    {
        lon >= self.xmin && lon <= self.xmax && lat >= self.ymin && lat <= self.ymax
    }
}

/// The spatial filter of one pass: no filter, an inclusive box, or a
/// simple closed polygon ring tested by winding number.
pub enum BoundsType {
    Bbox(Bbox),
    Polygon(Vec<i64>),
    Unbounded,
}

impl BoundsType {
    /// A filter is well formed when its polygon ring, if any, is.
    pub open spec fn wf(&self) -> bool {
        match self {
            BoundsType::Polygon(p) => ring_wf(p@),
            _ => true,
        }
    }

    /// What `admits` returns: everything for the unbounded filter, the
    /// box's inclusive interior for a box, and the points of non-zero
    /// winding number for a polygon.
    pub open spec fn spec_admits(&self, lon: i64, lat: i64) -> bool {
        match self {
            BoundsType::Unbounded => true,
            BoundsType::Bbox(b) => b.xmin <= lon <= b.xmax && b.ymin <= lat <= b.ymax,
            BoundsType::Polygon(p) => wn_spec(p@, lon as int, lat as int) != 0,
        }
    }

    /// Whether the coordinate pair `(lon, lat)` is admissible.
    pub fn admits(&self, lon: i64, lat: i64) -> (r: bool)
        requires
            self.wf(),
            coord_in_range(lon),
            coord_in_range(lat),
        ensures
            r == self.spec_admits(lon, lat),
    {
        match self {
            BoundsType::Unbounded => true,
            BoundsType::Bbox(b) => b.contains(lon, lat),
            BoundsType::Polygon(p) => wn(p, lon, lat) != 0,
        }
    }
}

/// Runtime check of [`ring_wf`], for callers outside the library that must
/// validate a ring before wrapping it in [`BoundsType::Polygon`].
pub fn ring_ok(p: &Vec<i64>) -> (r: bool)
    ensures
        r == ring_wf(p@),
{
    if p.len() < 2 || p.len() % 2 != 0 || p.len() > 0x8000_0000 {
        return false;
    }
    let mut i: usize = 0;
    while i < p.len()
        invariant
            0 <= i <= p@.len(),
            forall|j: int| 0 <= j < i ==> coord_in_range(#[trigger] p@[j]),
        decreases p@.len() - i,
    {
        let c: i64 = p[i];
        if c < -COORD_LIMIT || c > COORD_LIMIT {
            return false;
        }
        i = i + 1;
    }
    true
}

/// Runtime check of [`coord_in_range`], for callers outside the library.
pub fn coord_ok(c: i64) -> (r: bool)
    ensures
        r == coord_in_range(c),
{
    -COORD_LIMIT <= c && c <= COORD_LIMIT
}

} // verus!
