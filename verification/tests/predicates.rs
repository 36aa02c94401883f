//! Spatial predicate, classifier and tag normalizer behaviour on
//! concrete values.

use osm2pg::bounds::{coord_ok, ring_ok, Bbox, BoundsType};
use osm2pg::osm::{classify, MemberType, RelationType};
use osm2pg::poly::{wn, COORD_LIMIT};
use osm2pg::tags::normalize_tags;

fn unit_square_x10() -> Vec<i64> {
    vec![0, 0, 0, 10, 10, 10, 10, 0, 0, 0]
}

#[test]
fn wn_test() {
    let p = unit_square_x10();
    let r = wn(&p, 5, 5);
    assert_eq!(r, -1);
    let r = wn(&p, 15, 15);
    assert_eq!(r, 0);
    let r = wn(&p, -15, -15);
    assert_eq!(r, 0);
    let r = wn(&p, 9, 1);
    assert_eq!(r, -1);
}

#[test]
fn wn_test2() {
    // an exterior ring roughly around Denmark, in hundredths of a degree
    let denmark: Vec<i64> = vec![
        787, 5469, 778, 5725, 963, 5808, 1071, 5811, 1205, 5669, 1315, 5642, 1420, 5547, 1550,
        5533, 1528, 5464, 1298, 5494, 1229, 5435, 1246, 5364, 1141, 5342, 1007, 5318, 878, 5352,
        787, 5469,
    ];
    let r = wn(&denmark, 1000, 5600);
    assert_eq!(r, -1);
    let r = wn(&denmark, 5600, 1000);
    assert_eq!(r, 0);
}

#[test]
fn bbox_contains_is_inclusive() {
    let b = Bbox { xmin: 0, ymin: -10, xmax: 100, ymax: 50 };
    assert!(b.contains(0, -10));
    assert!(b.contains(100, 50));
    assert!(b.contains(37, 12));
    assert!(!b.contains(101, 12));
    assert!(!b.contains(-1, 12));
    assert!(!b.contains(37, 51));
    assert!(!b.contains(37, -11));
}

#[test]
fn bounds_variants_admit() {
    let unbounded = BoundsType::Unbounded;
    assert!(unbounded.admits(COORD_LIMIT, -COORD_LIMIT));

    let boxed = BoundsType::Bbox(Bbox { xmin: 0, ymin: 0, xmax: 10, ymax: 10 });
    assert!(boxed.admits(10, 0));
    assert!(!boxed.admits(11, 0));

    let poly = BoundsType::Polygon(unit_square_x10());
    assert!(poly.admits(5, 5));
    assert!(!poly.admits(15, 15));
    assert!(!poly.admits(-15, -15));
    assert!(poly.admits(9, 1));
}

#[test]
fn ring_and_coord_checks() {
    assert!(ring_ok(&unit_square_x10()));
    assert!(!ring_ok(&vec![]));
    assert!(!ring_ok(&vec![0, 0, 1]));
    assert!(!ring_ok(&vec![0, COORD_LIMIT + 1]));
    assert!(coord_ok(COORD_LIMIT));
    assert!(!coord_ok(COORD_LIMIT + 1));
    assert!(!coord_ok(i64::MIN));
}

#[test]
fn relation_type_ids() {
    assert_eq!(RelationType::Unknown.type_id(), 1);
    assert_eq!(RelationType::Multipolygon.type_id(), 2);
    assert_eq!(RelationType::Route.type_id(), 3);
    assert_eq!(RelationType::RouteMaster.type_id(), 4);
    assert_eq!(RelationType::Restriction.type_id(), 5);
    assert_eq!(RelationType::Boundary.type_id(), 6);
    assert_eq!(RelationType::PublicTransport.type_id(), 7);
    assert_eq!(RelationType::DestinationSign.type_id(), 8);
    assert_eq!(RelationType::Waterway.type_id(), 9);
    assert_eq!(RelationType::Enforcement.type_id(), 10);
    assert_eq!(RelationType::Connectivity.type_id(), 11);
}

#[test]
fn member_type_ids() {
    assert_eq!(MemberType::Node.type_id(), 1);
    assert_eq!(MemberType::Way.type_id(), 2);
    assert_eq!(MemberType::Relation.type_id(), 3);
}

#[test]
fn classify_maps_type_tag_values() {
    assert_eq!(classify(Some("multipolygon")).type_id(), 2);
    assert_eq!(classify(Some("bogus_type")).type_id(), 1);
    assert_eq!(classify(None).type_id(), 1);
    assert_eq!(classify(Some("route")), RelationType::Route);
    assert_eq!(classify(Some("route_master")), RelationType::RouteMaster);
    assert_eq!(classify(Some("public_transport")), RelationType::PublicTransport);
    assert_eq!(classify(Some("PUBLIC_TRANSPORT")), RelationType::PublicTransport);
    assert_eq!(classify(Some("destination_sign")), RelationType::DestinationSign);
    assert_eq!(classify(Some("waterway")), RelationType::Waterway);
    assert_eq!(classify(Some("enforcement")), RelationType::Enforcement);
    assert_eq!(classify(Some("connectivity")), RelationType::Connectivity);
    assert_eq!(classify(Some("restriction")), RelationType::Restriction);
    assert_eq!(classify(Some("boundary")), RelationType::Boundary);
    assert_eq!(classify(Some("")), RelationType::Unknown);
    assert_eq!(classify(Some("multi_polygon")), RelationType::Unknown);
}

fn pair(k: &str, v: &str) -> (String, String) {
    (k.to_string(), v.to_string())
}

#[test]
fn normalize_empty_tags_is_absent() {
    assert!(normalize_tags(&vec![]).is_none());
}

#[test]
fn normalize_keeps_exactly_the_pairs() {
    let m = normalize_tags(&vec![pair("highway", "residential"), pair("name", "A")]).unwrap();
    assert_eq!(m.pairs, vec![pair("highway", "residential"), pair("name", "A")]);
}

#[test]
fn normalize_last_write_wins() {
    let m = normalize_tags(&vec![pair("k", "1"), pair("other", "x"), pair("k", "2")]).unwrap();
    assert_eq!(m.pairs, vec![pair("k", "2"), pair("other", "x")]);
}
