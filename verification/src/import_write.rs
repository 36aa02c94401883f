//! The element router: per-element admission, transformation and routing
//! against the spatial filter and the referential index.

use crate::bounds::BoundsType;
use crate::import::{Element, ElementRows, Importer, Member, MemberRow, NodeRow, RelRow, WayRow};
use crate::osm::{classify, spec_classify, MemberType};
use crate::tags::{find_tag, normalize_tags, tags_normalized};
use vstd::prelude::*;
use vstd::string::StringExecFns;

verus! {

/// A way reference resolves when the referenced point was admitted
/// earlier in the pass.
pub open spec fn all_refs_resolvable(refs: Seq<i64>, points: Set<i64>) -> bool {
    forall|i: int| 0 <= i < refs.len() ==> points.contains(#[trigger] refs[i])
}

/// A member referencing a point or a way resolves only if that ID was
/// admitted earlier in the pass; a member referencing a relation always
/// resolves.
pub open spec fn member_resolvable(m: Member, points: Set<i64>, ways: Set<i64>) -> bool {
    match m.member_type {
        MemberType::Node => points.contains(m.member_id),
        MemberType::Way => ways.contains(m.member_id),
        MemberType::Relation => true,
    }
}

/// Every member of the relation resolves.
pub open spec fn all_members_resolvable(ms: Seq<Member>, points: Set<i64>, ways: Set<i64>) -> bool {
    forall|i: int| 0 <= i < ms.len() ==> member_resolvable(#[trigger] ms[i], points, ways)
}

/// What routing one node does: admitted by the spatial filter, its row is
/// emitted and its ID recorded; rejected, nothing happens. The way set is
/// never touched.
pub open spec fn node_written(
    bounds: BoundsType,
    pre_points: Set<i64>,
    pre_ways: Set<i64>,
    id: i64,
    lon: i64,
    lat: i64,
    tags: Seq<(String, String)>,
    r: Option<NodeRow>,
    post_points: Set<i64>,
    post_ways: Set<i64>,
) -> bool {
    &&& post_ways == pre_ways
    &&& if bounds.spec_admits(lon, lat) {
        &&& post_points == pre_points.insert(id)
        &&& r matches Some(row) && (row.id == id && row.lon == lon && row.lat == lat
            && tags_normalized(tags, row.tags))
    } else {
        &&& post_points == pre_points
        &&& r is None
    }
}

/// What routing one way does: with every referenced point already
/// admitted, its row is emitted and its ID recorded; otherwise it is
/// dropped whole. The point set is never touched.
pub open spec fn way_written(
    pre_points: Set<i64>,
    pre_ways: Set<i64>,
    id: i64,
    refs: Seq<i64>,
    tags: Seq<(String, String)>,
    r: Option<WayRow>,
    post_points: Set<i64>,
    post_ways: Set<i64>,
) -> bool {
    &&& post_points == pre_points
    &&& if all_refs_resolvable(refs, pre_points) {
        &&& post_ways == pre_ways.insert(id)
        &&& r matches Some(row) && (row.id == id && row.refs@ == refs && tags_normalized(
            tags,
            row.tags,
        ))
    } else {
        &&& post_ways == pre_ways
        &&& r is None
    }
}

/// One buffered member row carries the relation's ID, the member's ID,
/// kind and role, and its zero-based position in traversal order.
pub open spec fn member_row_matches(row: MemberRow, rel_id: i64, m: Member, k: int) -> bool {
    &&& row.rel_id == rel_id
    &&& row.member_id == m.member_id
    &&& row.member_type_id == m.member_type.spec_type_id()
    &&& row.role@ == m.role@
    &&& row.sequence_id == k
}

/// What routing one relation does: with every member resolved, the
/// relation row — classified from the "type" tag — and all member rows
/// are emitted as a unit; with any member unresolved, nothing is. The
/// index is never touched.
pub open spec fn rel_written(
    pre_points: Set<i64>,
    pre_ways: Set<i64>,
    id: i64,
    members: Seq<Member>,
    tags: Seq<(String, String)>,
    r: Option<(RelRow, Vec<MemberRow>)>,
    post_points: Set<i64>,
    post_ways: Set<i64>,
) -> bool {
    &&& post_points == pre_points
    &&& post_ways == pre_ways
    &&& if all_members_resolvable(members, pre_points, pre_ways) {
        r matches Some(pr) && ({
            &&& pr.0.id == id
            &&& pr.0.type_id == spec_classify(find_tag(tags, "type"@)).spec_type_id()
            &&& tags_normalized(tags, pr.0.tags)
            &&& pr.1@.len() == members.len()
            &&& forall|k: int|
                0 <= k < members.len() ==> member_row_matches(#[trigger] pr.1@[k], id, members[k], k)
        })
    } else {
        r is None
    }
}

/// A way referencing any point ID never recorded is dropped entirely:
/// no row comes back, the way set is unchanged, and an ID that was not
/// recorded before still answers false to `has_way`.
pub proof fn lemma_way_dropped(
    pre_points: Set<i64>,
    pre_ways: Set<i64>,
    id: i64,
    refs: Seq<i64>,
    tags: Seq<(String, String)>,
    r: Option<WayRow>,
    post_points: Set<i64>,
    post_ways: Set<i64>,
)
    requires
        way_written(pre_points, pre_ways, id, refs, tags, r, post_points, post_ways),
        !all_refs_resolvable(refs, pre_points),
        !pre_ways.contains(id),
    ensures
        r is None,
        post_ways == pre_ways,
        !post_ways.contains(id),
{
}

/// Per-relation atomicity: one unresolvable member suffices for the
/// whole relation to contribute nothing — no relation row and no member
/// row, however many members would have resolved.
pub proof fn lemma_relation_atomic(
    pre_points: Set<i64>,
    pre_ways: Set<i64>,
    id: i64,
    members: Seq<Member>,
    tags: Seq<(String, String)>,
    r: Option<(RelRow, Vec<MemberRow>)>,
    post_points: Set<i64>,
    post_ways: Set<i64>,
    j: int,
)
    requires
        rel_written(pre_points, pre_ways, id, members, tags, r, post_points, post_ways),
        0 <= j < members.len(),
        !member_resolvable(members[j], pre_points, pre_ways),
    ensures
        r is None,
{
    assert(!all_members_resolvable(members, pre_points, pre_ways)) by {
        assert(!member_resolvable(members[j], pre_points, pre_ways));
    }
}

/// First value of the pair whose key is `key`, if any.
fn find_value<'a>(tags: &'a Vec<(String, String)>, key: &String) -> (r: Option<&'a String>)
    ensures
        (match r {
            Some(v) => find_tag(tags@, key@) == Some(v@),
            None => find_tag(tags@, key@) is None,
        }),
{
    let mut i: usize = 0;
    proof {
        assert(tags@.skip(0) =~= tags@);
    }
    while i < tags.len()
        invariant
            0 <= i <= tags@.len(),
            find_tag(tags@, key@) == find_tag(tags@.skip(i as int), key@),
        decreases tags@.len() - i,
    {
        proof {
            assert(tags@.skip(i as int).len() > 0);
            assert(tags@.skip(i as int)[0] == tags@[i as int]);
            assert(tags@.skip(i as int).drop_first() =~= tags@.skip(i as int + 1));
        }
        if tags[i].0 == *key {
            return Some(&tags[i].1);
        }
        i = i + 1;
    }
    proof {
        assert(tags@.skip(tags@.len() as int) =~= Seq::<(String, String)>::empty());
    }
    None
}

impl Importer {
    /// Route one node: admitted iff the spatial filter accepts its
    /// coordinates; then its row is emitted and its ID recorded.
    pub fn write_node(&mut self, id: i64, lon: i64, lat: i64, tags: &Vec<(String, String)>) -> (r:
        Option<NodeRow>)
        requires
            old(self).wf(),
            crate::poly::coord_in_range(lon),
            crate::poly::coord_in_range(lat),
        ensures
            final(self).wf(),
            final(self).bounds_type == old(self).bounds_type,
            old(self).index.points().subset_of(final(self).index.points()),
            old(self).index.ways().subset_of(final(self).index.ways()),
            node_written(
                old(self).bounds_type,
                old(self).index.points(),
                old(self).index.ways(),
                id,
                lon,
                lat,
                tags@,
                r,
                final(self).index.points(),
                final(self).index.ways(),
            ),
    {
        if self.bounds_type.admits(lon, lat) {
            self.index.record_point(id);
            let t: Option<crate::tags::TagMap> = normalize_tags(tags);
            Some(NodeRow { id, lon, lat, tags: t })
        } else {
            None
        }
    }

    /// Route one way: admitted iff every referenced point ID was already
    /// recorded; then its row is emitted and its ID recorded.
    pub fn write_way(&mut self, id: i64, refs: Vec<i64>, tags: &Vec<(String, String)>) -> (r:
        Option<WayRow>)
        requires
            old(self).wf(),
        ensures
            final(self).wf(),
            final(self).bounds_type == old(self).bounds_type,
            old(self).index.points().subset_of(final(self).index.points()),
            old(self).index.ways().subset_of(final(self).index.ways()),
            way_written(
                old(self).index.points(),
                old(self).index.ways(),
                id,
                refs@,
                tags@,
                r,
                final(self).index.points(),
                final(self).index.ways(),
            ),
    {
        let mut i: usize = 0;
        let mut ok: bool = true;
        while i < refs.len()
            invariant
                0 <= i <= refs@.len(),
                *self == *old(self),
                ok ==> forall|t: int|
                    0 <= t < i ==> old(self).index.points().contains(#[trigger] refs@[t]),
                !ok ==> !all_refs_resolvable(refs@, old(self).index.points()),
            decreases refs@.len() - i,
        {
            if !self.index.has_point(refs[i]) {
                ok = false;
            }
            i = i + 1;
        }
        if ok {
            self.index.record_way(id);
            let t: Option<crate::tags::TagMap> = normalize_tags(tags);
            Some(WayRow { id, refs, tags: t })
        } else {
            None
        }
    }

    /// Route one relation: all member rows are buffered while members are
    /// resolved, and emitted together with the relation row only when
    /// every member resolved; otherwise the whole relation is dropped.
    /// Sequence positions are assigned 0..N-1 in traversal order.
    pub fn write_rel(&mut self, id: i64, members: &Vec<Member>, tags: &Vec<(String, String)>) -> (r:
        Option<(RelRow, Vec<MemberRow>)>)
        requires
            old(self).wf(),
            members@.len() <= 0x7fff_ffff,
        ensures
            final(self).wf(),
            final(self).bounds_type == old(self).bounds_type,
            final(self).index.points() == old(self).index.points(),
            final(self).index.ways() == old(self).index.ways(),
            rel_written(
                old(self).index.points(),
                old(self).index.ways(),
                id,
                members@,
                tags@,
                r,
                final(self).index.points(),
                final(self).index.ways(),
            ),
    {
        let mut i: usize = 0;
        let mut ok: bool = true;
        while i < members.len()
            invariant
                0 <= i <= members@.len(),
                *self == *old(self),
                ok ==> forall|t: int|
                    0 <= t < i ==> member_resolvable(
                        #[trigger] members@[t],
                        old(self).index.points(),
                        old(self).index.ways(),
                    ),
                !ok ==> !all_members_resolvable(
                    members@,
                    old(self).index.points(),
                    old(self).index.ways(),
                ),
            decreases members@.len() - i,
        {
            let m: &Member = &members[i];
            let resolved: bool = match m.member_type {
                MemberType::Node => self.index.has_point(m.member_id),
                MemberType::Way => self.index.has_way(m.member_id),
                MemberType::Relation => true,
            };
            if !resolved {
                ok = false;
            }
            i = i + 1;
        }
        if !ok {
            return None;
        }
        let mut mrows: Vec<MemberRow> = Vec::new();
        let mut k: usize = 0;
        while k < members.len()
            invariant
                0 <= k <= members@.len(),
                members@.len() <= 0x7fff_ffff,
                mrows@.len() == k,
                forall|t: int|
                    0 <= t < k ==> member_row_matches(#[trigger] mrows@[t], id, members@[t], t),
            decreases members@.len() - k,
        {
            let m: &Member = &members[k];
            mrows.push(
                MemberRow {
                    rel_id: id,
                    member_id: m.member_id,
                    member_type_id: m.member_type.type_id(),
                    role: m.role.clone(),
                    sequence_id: k as i32,
                },
            );
            k = k + 1;
        }
        let key: String = String::from_str("type");
        let type_val: Option<&String> = find_value(tags, &key);
        let rt: crate::osm::RelationType = match type_val {
            Some(v) => classify(Some(v.as_str())),
            None => classify(None),
        };
        let t: Option<crate::tags::TagMap> = normalize_tags(tags);
        Some((RelRow { id, type_id: rt.type_id(), tags: t }, mrows))
    }

    /// Route one element to the admission logic of its kind and hand back
    /// everything it contributes to the output.
    pub fn write(&mut self, e: Element) -> (rows: ElementRows)
        requires
            old(self).wf(),
            e.valid(),
        ensures
            final(self).wf(),
            final(self).bounds_type == old(self).bounds_type,
            old(self).index.points().subset_of(final(self).index.points()),
            old(self).index.ways().subset_of(final(self).index.ways()),
            (e matches Element::Node { id, lon, lat, tags } ==> (rows is Node || rows is Dropped)
                && node_written(
                old(self).bounds_type,
                old(self).index.points(),
                old(self).index.ways(),
                id,
                lon,
                lat,
                tags@,
                (match rows {
                    ElementRows::Node(row) => Some(row),
                    _ => None,
                }),
                final(self).index.points(),
                final(self).index.ways(),
            )),
            (e matches Element::Way { id, refs, tags } ==> (rows is Way || rows is Dropped)
                && way_written(
                old(self).index.points(),
                old(self).index.ways(),
                id,
                refs@,
                tags@,
                (match rows {
                    ElementRows::Way(row) => Some(row),
                    _ => None,
                }),
                final(self).index.points(),
                final(self).index.ways(),
            )),
            (e matches Element::Relation { id, members, tags } ==> (rows is Relation
                || rows is Dropped) && rel_written(
                old(self).index.points(),
                old(self).index.ways(),
                id,
                members@,
                tags@,
                (match rows {
                    ElementRows::Relation(rel, mr) => Some((rel, mr)),
                    _ => None,
                }),
                final(self).index.points(),
                final(self).index.ways(),
            )),
    {
        match e {
            Element::Node { id, lon, lat, tags } => {
                match self.write_node(id, lon, lat, &tags) {
                    Some(row) => ElementRows::Node(row),
                    None => ElementRows::Dropped,
                }
            },
            Element::Way { id, refs, tags } => {
                match self.write_way(id, refs, &tags) {
                    Some(row) => ElementRows::Way(row),
                    None => ElementRows::Dropped,
                }
            },
            Element::Relation { id, members, tags } => {
                match self.write_rel(id, &members, &tags) {
                    Some((rel, mrows)) => ElementRows::Relation(rel, mrows),
                    None => ElementRows::Dropped,
                }
            },
        }
    }
}

} // verus!
