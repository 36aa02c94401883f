//! Referential index of one import pass: the IDs of the points and ways
//! admitted so far. Membership only grows; nothing is ever removed.

use std::collections::HashSet;
use vstd::prelude::*;

verus! {

/// The two insert-only membership sets consulted when a way or a relation
/// member is resolved.
pub struct RefIndex {
    point_ids: HashSet<i64>,
    way_ids: HashSet<i64>,
}

impl RefIndex {
    /// The IDs of the points admitted so far.
    pub closed spec fn points(&self) -> Set<i64> {
        self.point_ids@
    }

    /// The IDs of the ways admitted so far.
    pub closed spec fn ways(&self) -> Set<i64> {
        self.way_ids@
    }

    /// A fresh index with both membership sets empty.
    pub fn new() -> (r: RefIndex)
        ensures
            r.points() == Set::<i64>::empty(),
            r.ways() == Set::<i64>::empty(),
    {
        RefIndex { point_ids: HashSet::new(), way_ids: HashSet::new() }
    }

    /// Record an admitted point ID. The point set grows by exactly this
    /// ID; the way set is untouched.
    pub fn record_point(&mut self, id: i64)
        ensures
            final(self).points() == old(self).points().insert(id),
            final(self).ways() == old(self).ways(),
            old(self).points().subset_of(final(self).points()),
    {
        self.point_ids.insert(id);
    }

    /// Record an admitted way ID. The way set grows by exactly this ID;
    /// the point set is untouched.
    pub fn record_way(&mut self, id: i64)
        ensures
            final(self).ways() == old(self).ways().insert(id),
            final(self).points() == old(self).points(),
            old(self).ways().subset_of(final(self).ways()),
    {
        self.way_ids.insert(id);
    }

    /// Whether this point ID has been recorded during the pass.
    pub fn has_point(&self, id: i64) -> (r: bool)
        ensures
            r == self.points().contains(id),
    {
        self.point_ids.contains(&id)
    }

    /// Whether this way ID has been recorded during the pass.
    pub fn has_way(&self, id: i64) -> (r: bool)
        ensures
            r == self.ways().contains(id),
    {
        self.way_ids.contains(&id)
    }
}

/// Membership in the index is monotonic: an ID present in an earlier state
/// of a membership set is present in every later state, since each
/// operation of [`RefIndex`] ensures that the old set is a subset of the
/// new one. So once `record_point(id)` has run, `has_point(id)` returns
/// true for the remainder of the pass, whatever is recorded afterwards.
pub proof fn lemma_index_monotonic(earlier: Set<i64>, later: Set<i64>, id: i64)
    requires
        earlier.contains(id),
        earlier.subset_of(later),
    ensures
        later.contains(id),
{
}

} // verus!
