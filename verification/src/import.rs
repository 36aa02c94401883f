//! One import pass: the element model, the output row model, and the
//! importer state that routes elements (see the write methods).

use crate::bounds::BoundsType;
use crate::index::RefIndex;
use crate::osm::MemberType;
use crate::poly::coord_in_range;
use crate::tags::TagMap;
use vstd::prelude::*;

verus! {

/// One member of a relation: the referenced entity ID, its kind, and its
/// role string.
pub struct Member {
    pub member_id: i64,
    pub member_type: MemberType,
    pub role: String,
}

/// One decoded element of the input stream. Coordinates are fixed-point
/// nanodegrees; tags are raw key/value pairs as decoded.
pub enum Element {
    Node { id: i64, lon: i64, lat: i64, tags: Vec<(String, String)> },
    Way { id: i64, refs: Vec<i64>, tags: Vec<(String, String)> },
    Relation { id: i64, members: Vec<Member>, tags: Vec<(String, String)> },
}

impl Element {
    /// Machine limits on one element: node coordinates small enough for
    /// the exact winding-number test, and few enough relation members for
    /// their positions to fit the sequence-ID column.
    pub open spec fn valid(&self) -> bool {
        match self {
            Element::Node { lon, lat, .. } => coord_in_range(*lon) && coord_in_range(*lat),
            Element::Way { .. } => true,
            Element::Relation { members, .. } => members@.len() <= 0x7fff_ffff,
        }
    }
}

/// Runtime check of [`Element::valid`], for callers outside the library
/// that must validate a decoded element before routing it.
pub fn element_ok(e: &Element) -> (r: bool)
    ensures
        r == e.valid(),
{
    match e {
        Element::Node { lon, lat, .. } => crate::bounds::coord_ok(*lon) && crate::bounds::coord_ok(
            *lat,
        ),
        Element::Way { .. } => true,
        Element::Relation { members, .. } => members.len() <= 0x7fff_ffff,
    }
}

/// Row of the points table.
pub struct NodeRow {
    pub id: i64,
    pub lon: i64,
    pub lat: i64,
    pub tags: Option<TagMap>,
}

/// Row of the ways table.
pub struct WayRow {
    pub id: i64,
    pub refs: Vec<i64>,
    pub tags: Option<TagMap>,
}

/// Row of the relations table.
pub struct RelRow {
    pub id: i64,
    pub type_id: i16,
    pub tags: Option<TagMap>,
}

/// Row of the relation-members table.
pub struct MemberRow {
    pub rel_id: i64,
    pub member_id: i64,
    pub member_type_id: i16,
    pub role: String,
    pub sequence_id: i32,
}

/// Everything one element contributes to the output: nothing when it was
/// dropped, one row for a node or a way, and a relation row together with
/// all its member rows — emitted as a unit or not at all.
pub enum ElementRows {
    Dropped,
    Node(NodeRow),
    Way(WayRow),
    Relation(RelRow, Vec<MemberRow>),
}

/// State of one import pass: the spatial filter chosen at pass start and
/// the referential index, both owned for the pass lifetime.
pub struct Importer {
    pub bounds_type: BoundsType,
    pub index: RefIndex,
}

impl Importer {
    /// The importer is well formed while its filter is.
    pub open spec fn wf(&self) -> bool {
        self.bounds_type.wf()
    }

    /// A fresh pass over the given spatial filter, with an empty index.
    pub fn new(bounds_type: BoundsType) -> (r: Importer)
        requires
            bounds_type.wf(),
        ensures
            r.wf(),
            r.bounds_type == bounds_type,
            r.index.points() == Set::<i64>::empty(),
            r.index.ways() == Set::<i64>::empty(),
    {
        Importer { bounds_type, index: RefIndex::new() }
    }
}

} // verus!
