//! Routing one element sequence through an import pass: admission,
//! referential consistency, relation atomicity, and the rows produced.

use osm2pg::bounds::{Bbox, BoundsType};
use osm2pg::import::{Element, ElementRows, Importer, Member};
use osm2pg::index::RefIndex;
use osm2pg::osm::MemberType;

fn pair(k: &str, v: &str) -> (String, String) {
    (k.to_string(), v.to_string())
}

fn member(member_id: i64, member_type: MemberType, role: &str) -> Member {
    Member { member_id, member_type, role: role.to_string() }
}

#[test]
fn index_is_monotonic() {
    let mut idx = RefIndex::new();
    assert!(!idx.has_point(42));
    idx.record_point(42);
    assert!(idx.has_point(42));
    idx.record_point(7);
    idx.record_way(42);
    idx.record_point(42);
    assert!(idx.has_point(42));
    assert!(idx.has_point(7));
    assert!(idx.has_way(42));
    assert!(!idx.has_way(7));
    assert!(!idx.has_point(9));
}

#[test]
fn node_admission_follows_bounds() {
    let mut imp = Importer::new(BoundsType::Bbox(Bbox { xmin: 0, ymin: 0, xmax: 10, ymax: 10 }));
    let row = imp.write_node(1, 5, 5, &vec![pair("name", "a")]).unwrap();
    assert_eq!(row.id, 1);
    assert_eq!(row.lon, 5);
    assert_eq!(row.lat, 5);
    assert_eq!(row.tags.unwrap().pairs, vec![pair("name", "a")]);
    assert!(imp.index.has_point(1));

    assert!(imp.write_node(2, 11, 5, &vec![]).is_none());
    assert!(!imp.index.has_point(2));
}

#[test]
fn way_with_unseen_point_is_dropped() {
    let mut imp = Importer::new(BoundsType::Unbounded);
    assert!(imp.write_node(1, 0, 0, &vec![]).is_some());
    let r = imp.write_way(10, vec![1, 99], &vec![]);
    assert!(r.is_none());
    assert!(!imp.index.has_way(10));
    let row = imp.write_way(11, vec![1], &vec![]).unwrap();
    assert_eq!(row.id, 11);
    assert_eq!(row.refs, vec![1]);
    assert!(row.tags.is_none());
    assert!(imp.index.has_way(11));
}

#[test]
fn empty_way_is_admitted() {
    let mut imp = Importer::new(BoundsType::Unbounded);
    let row = imp.write_way(12, vec![], &vec![]).unwrap();
    assert_eq!(row.refs, Vec::<i64>::new());
    assert!(imp.index.has_way(12));
}

#[test]
fn relation_with_unresolvable_member_is_dropped_whole() {
    let mut imp = Importer::new(BoundsType::Unbounded);
    assert!(imp.write_node(1, 0, 0, &vec![]).is_some());
    assert!(imp.write_way(10, vec![1], &vec![]).is_some());
    // member #2 references a way never admitted
    let members = vec![
        member(1, MemberType::Node, "from"),
        member(99, MemberType::Way, "via"),
        member(10, MemberType::Way, "to"),
    ];
    let r = imp.write_rel(20, &members, &vec![pair("type", "restriction")]);
    assert!(r.is_none());
}

#[test]
fn relation_with_all_members_resolved_is_emitted_as_a_unit() {
    let mut imp = Importer::new(BoundsType::Unbounded);
    assert!(imp.write_node(1, 0, 0, &vec![]).is_some());
    assert!(imp.write_way(10, vec![1], &vec![]).is_some());
    let members = vec![
        member(1, MemberType::Node, "stop"),
        member(10, MemberType::Way, ""),
        // a relation member resolves even when never seen
        member(777, MemberType::Relation, "sub"),
    ];
    let (rel, mrows) = imp
        .write_rel(20, &members, &vec![pair("type", "route"), pair("ref", "7")])
        .unwrap();
    assert_eq!(rel.id, 20);
    assert_eq!(rel.type_id, 3);
    assert_eq!(
        rel.tags.unwrap().pairs,
        vec![pair("type", "route"), pair("ref", "7")]
    );
    assert_eq!(mrows.len(), 3);
    for (k, row) in mrows.iter().enumerate() {
        assert_eq!(row.rel_id, 20);
        assert_eq!(row.member_id, members[k].member_id);
        assert_eq!(row.sequence_id, k as i32);
    }
    assert_eq!(mrows[0].member_type_id, 1);
    assert_eq!(mrows[1].member_type_id, 2);
    assert_eq!(mrows[2].member_type_id, 3);
    assert_eq!(mrows[0].role, "stop");
    assert_eq!(mrows[1].role, "");
    assert_eq!(mrows[2].role, "sub");
}

#[test]
fn relation_without_type_tag_is_unknown() {
    let mut imp = Importer::new(BoundsType::Unbounded);
    let (rel, mrows) = imp.write_rel(21, &vec![], &vec![]).unwrap();
    assert_eq!(rel.type_id, 1);
    assert!(rel.tags.is_none());
    assert!(mrows.is_empty());
}

#[test]
fn end_to_end_unfiltered_sequence() {
    let mut imp = Importer::new(BoundsType::Unbounded);
    let input = vec![
        Element::Node { id: 1, lon: 0, lat: 0, tags: vec![] },
        Element::Node { id: 2, lon: 1, lat: 1, tags: vec![] },
        Element::Way { id: 10, refs: vec![1, 2], tags: vec![pair("highway", "residential")] },
        Element::Way { id: 11, refs: vec![1, 99], tags: vec![] },
    ];
    let mut node_rows = Vec::new();
    let mut way_rows = Vec::new();
    let mut rel_rows = 0usize;
    let mut member_rows = 0usize;
    for e in input {
        match imp.write(e) {
            ElementRows::Dropped => {}
            ElementRows::Node(row) => node_rows.push(row),
            ElementRows::Way(row) => way_rows.push(row),
            ElementRows::Relation(_, mrows) => {
                rel_rows += 1;
                member_rows += mrows.len();
            }
        }
    }
    assert_eq!(node_rows.len(), 2);
    assert_eq!(node_rows[0].id, 1);
    assert_eq!(node_rows[1].id, 2);
    assert_eq!(way_rows.len(), 1);
    assert_eq!(way_rows[0].id, 10);
    assert_eq!(way_rows[0].refs, vec![1, 2]);
    assert_eq!(
        way_rows[0].tags.as_ref().unwrap().pairs,
        vec![pair("highway", "residential")]
    );
    assert_eq!(rel_rows, 0);
    assert_eq!(member_rows, 0);
}
