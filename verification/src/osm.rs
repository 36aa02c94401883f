//! Relation classification: the closed set of relation types, the member
//! kinds, and the classifier that maps the value of a relation's "type"
//! tag onto the set by PascalCase normalization.

use vstd::prelude::*;
use vstd::string::StrSliceExecFns;

verus! {

/// The closed set of relation types. A relation whose "type" tag is
/// absent or matches no variant name is `Unknown`.
#[derive(Clone, Copy, PartialEq, Eq, Structural, Debug)]
pub enum RelationType {
    Unknown,
    Multipolygon,
    Route,
    RouteMaster,
    Restriction,
    Boundary,
    PublicTransport,
    DestinationSign,
    Waterway,
    Enforcement,
    Connectivity,
}

/// The kind of entity a relation member references.
#[derive(Clone, Copy, PartialEq, Eq, Structural, Debug)]
pub enum MemberType {
    Node,
    Way,
    Relation,
}

impl RelationType {
    /// Identifier of the variant in the relations table, 1 through 11 in
    /// declaration order, `Unknown` first.
    pub open spec fn spec_type_id(self) -> i16 {
        match self {
            RelationType::Unknown => 1,
            RelationType::Multipolygon => 2,
            RelationType::Route => 3,
            RelationType::RouteMaster => 4,
            RelationType::Restriction => 5,
            RelationType::Boundary => 6,
            RelationType::PublicTransport => 7,
            RelationType::DestinationSign => 8,
            RelationType::Waterway => 9,
            RelationType::Enforcement => 10,
            RelationType::Connectivity => 11,
        }
    }

    /// Identifier of the variant in the relations table.
    pub fn type_id(self) -> (r: i16)
        ensures
            r == self.spec_type_id(),
    {
        match self {
            RelationType::Unknown => 1,
            RelationType::Multipolygon => 2,
            RelationType::Route => 3,
            RelationType::RouteMaster => 4,
            RelationType::Restriction => 5,
            RelationType::Boundary => 6,
            RelationType::PublicTransport => 7,
            RelationType::DestinationSign => 8,
            RelationType::Waterway => 9,
            RelationType::Enforcement => 10,
            RelationType::Connectivity => 11,
        }
    }
}

impl MemberType {
    /// Identifier of the kind in the relation-members table: 1 for a
    /// node, 2 for a way, 3 for a relation.
    pub open spec fn spec_type_id(self) -> i16 {
        match self {
            MemberType::Node => 1,
            MemberType::Way => 2,
            MemberType::Relation => 3,
        }
    }

    /// Identifier of the kind in the relation-members table.
    pub fn type_id(self) -> (r: i16)
        ensures
            r == self.spec_type_id(),
    {
        match self {
            MemberType::Node => 1,
            MemberType::Way => 2,
            MemberType::Relation => 3,
        }
    }
}

/// ASCII letter or digit; everything else separates segments.
pub open spec fn is_ascii_alnum(c: char) -> bool {
    (48 <= c as u32 && c as u32 <= 57) || (97 <= c as u32 && c as u32 <= 122) || (65 <= c as u32
        && c as u32 <= 90)
}

/// Code point of `c` with an ASCII lowercase letter raised to uppercase.
pub open spec fn upper_code(c: char) -> u32 {
    if 97 <= c as u32 && c as u32 <= 122 {
        (c as u32 - 32) as u32
    } else {
        c as u32
    }
}

/// Code point of `c` with an ASCII uppercase letter lowered to lowercase.
pub open spec fn lower_code(c: char) -> u32 {
    if 65 <= c as u32 && c as u32 <= 90 {
        (c as u32 + 32) as u32
    } else {
        c as u32
    }
}

/// PascalCase normalization, as a sequence of code points: split on
/// non-alphanumeric separators, title-case each segment, concatenate.
/// `start` says whether the next alphanumeric character begins a segment.
pub open spec fn pascal_codes(s: Seq<char>, start: bool) -> Seq<u32>
    decreases s.len(),
{
    if s.len() == 0 {
        Seq::empty()
    } else if !is_ascii_alnum(s[0]) {
        pascal_codes(s.drop_first(), true)
    } else if start {
        seq![upper_code(s[0])] + pascal_codes(s.drop_first(), false)
    } else {
        seq![lower_code(s[0])] + pascal_codes(s.drop_first(), false)
    }
}

/// PascalCase normalization of a whole tag value.
pub open spec fn pascal_of(s: Seq<char>) -> Seq<u32> {
    pascal_codes(s, true)
}

/// The code points of a string, for comparing against a normalization.
pub open spec fn codes_of(s: Seq<char>) -> Seq<u32> {
    Seq::new(s.len(), |i: int| s[i] as u32)
}

/// Whether the tag value names `name` once normalized to PascalCase.
pub open spec fn matches_name(value: Seq<char>, name: Seq<char>) -> bool {
    pascal_of(value) == codes_of(name)
}

/// The variant a "type" tag value denotes: the one whose name the value
/// matches after PascalCase normalization, or `Unknown` when the tag is
/// absent or matches no variant name.
pub open spec fn spec_classify(t: Option<Seq<char>>) -> RelationType {
    match t {
        None => RelationType::Unknown,
        Some(v) => if matches_name(v, "Multipolygon"@) {
            RelationType::Multipolygon
        } else if matches_name(v, "Route"@) {
            RelationType::Route
        } else if matches_name(v, "RouteMaster"@) {
            RelationType::RouteMaster
        } else if matches_name(v, "Restriction"@) {
            RelationType::Restriction
        } else if matches_name(v, "Boundary"@) {
            RelationType::Boundary
        } else if matches_name(v, "PublicTransport"@) {
            RelationType::PublicTransport
        } else if matches_name(v, "DestinationSign"@) {
            RelationType::DestinationSign
        } else if matches_name(v, "Waterway"@) {
            RelationType::Waterway
        } else if matches_name(v, "Enforcement"@) {
            RelationType::Enforcement
        } else if matches_name(v, "Connectivity"@) {
            RelationType::Connectivity
        } else {
            RelationType::Unknown
        },
    }
}

proof fn lemma_pascal_codes_step(s: Seq<char>, i: int, start: bool)
    requires
        0 <= i < s.len(),
    ensures
        pascal_codes(s.skip(i), start) == (if !is_ascii_alnum(s[i]) {
            pascal_codes(s.skip(i + 1), true)
        } else {
            seq![
                if start {
                    upper_code(s[i])
                } else {
                    lower_code(s[i])
                },
            ] + pascal_codes(s.skip(i + 1), false)
        }),
{
    assert(s.skip(i).len() == s.len() - i);
    assert(s.skip(i)[0] == s[i]);
    assert(s.skip(i).drop_first() =~= s.skip(i + 1));
}

/// Whether `value`, normalized to PascalCase, equals `name`.
fn pascal_matches(value: &str, name: &str) -> (r: bool)
    ensures
        r == matches_name(value@, name@),
{
    let vn: usize = value.unicode_len();
    let nn: usize = name.unicode_len();
    let mut i: usize = 0;
    let mut j: usize = 0;
    let mut start: bool = true;
    proof {
        assert(value@.skip(0) =~= value@);
        assert(codes_of(name@).take(0) + pascal_codes(value@, true) =~= pascal_codes(value@, true));
    }
    while i < vn
        invariant
            0 <= i <= vn,
            0 <= j <= nn,
            vn == value@.len(),
            nn == name@.len(),
            pascal_of(value@) == codes_of(name@).take(j as int) + pascal_codes(
                value@.skip(i as int),
                start,
            ),
        decreases vn - i,
    {
        let c: char = value.get_char(i);
        let cc: u32 = c as u32;
        proof {
            lemma_pascal_codes_step(value@, i as int, start);
        }
        if (48 <= cc && cc <= 57) || (97 <= cc && cc <= 122) || (65 <= cc && cc <= 90) {
            let m: u32 = if start {
                if 97 <= cc && cc <= 122 {
                    cc - 32
                } else {
                    cc
                }
            } else {
                if 65 <= cc && cc <= 90 {
                    cc + 32
                } else {
                    cc
                }
            };
            proof {
                assert(m == (if start {
                    upper_code(value@[i as int])
                } else {
                    lower_code(value@[i as int])
                }));
            }
            if j >= nn {
                proof {
                    let p = pascal_of(value@);
                    assert(p.len() >= codes_of(name@).len() + 1);
                    assert(codes_of(name@).len() == nn);
                    assert(p != codes_of(name@));
                }
                return false;
            }
            let t: char = name.get_char(j);
            if t as u32 != m {
                proof {
                    let p = pascal_of(value@);
                    assert(p[j as int] == m);
                    assert(codes_of(name@)[j as int] == t as u32);
                    assert(p != codes_of(name@));
                }
                return false;
            }
            proof {
                let cn = codes_of(name@);
                assert(cn.take(j as int + 1) =~= cn.take(j as int).push(cn[j as int]));
                assert(cn.take(j as int).push(m) + pascal_codes(value@.skip(i as int + 1), false)
                    =~= cn.take(j as int) + (seq![m] + pascal_codes(
                    value@.skip(i as int + 1),
                    false,
                )));
            }
            j = j + 1;
            start = false;
        } else {
            start = true;
        }
        i = i + 1;
    }
    proof {
        assert(value@.skip(vn as int) =~= Seq::<char>::empty());
        assert(pascal_of(value@) =~= codes_of(name@).take(j as int));
        if j == nn {
            assert(codes_of(name@).take(j as int) =~= codes_of(name@));
        } else {
            assert(pascal_of(value@).len() == j);
            assert(codes_of(name@).len() == nn);
        }
    }
    j == nn
}

/// Classify the optional value of a relation's "type" tag. Absent or
/// unmatched values degrade to `Unknown`; classification never fails.
pub fn classify(type_tag: Option<&str>) -> (r: RelationType)
    ensures
        r == spec_classify(match type_tag {
            Some(v) => Some(v@),
            None => None,
        }),
{
    match type_tag {
        None => RelationType::Unknown,
        Some(v) => {
            if pascal_matches(v, "Multipolygon") {
                RelationType::Multipolygon
            } else if pascal_matches(v, "Route") {
                RelationType::Route
            } else if pascal_matches(v, "RouteMaster") {
                RelationType::RouteMaster
            } else if pascal_matches(v, "Restriction") {
                RelationType::Restriction
            } else if pascal_matches(v, "Boundary") {
                RelationType::Boundary
            } else if pascal_matches(v, "PublicTransport") {
                RelationType::PublicTransport
            } else if pascal_matches(v, "DestinationSign") {
                RelationType::DestinationSign
            } else if pascal_matches(v, "Waterway") {
                RelationType::Waterway
            } else if pascal_matches(v, "Enforcement") {
                RelationType::Enforcement
            } else if pascal_matches(v, "Connectivity") {
                RelationType::Connectivity
            } else {
                RelationType::Unknown
            }
        },
    }
}

} // verus!
