//! Tag normalizer: a sequence of key/value string pairs becomes an
//! optional mapping — absent when the sequence is empty, otherwise a
//! non-empty pair list with distinct keys, later pairs winning over
//! earlier ones with the same key.

use vstd::prelude::*;

verus! {

/// The string-keyed mapping a pair sequence denotes: pairs are inserted
/// in order, so the last pair with a given key wins.
pub open spec fn map_of_pairs(s: Seq<(String, String)>) -> Map<Seq<char>, Seq<char>>
    decreases s.len(),
{
    if s.len() == 0 {
        Map::empty()
    } else {
        map_of_pairs(s.drop_last()).insert(s.last().0@, s.last().1@)
    }
}

/// First value with the given key in a raw tag sequence, if any.
pub open spec fn find_tag(s: Seq<(String, String)>, key: Seq<char>) -> Option<Seq<char>>
    decreases s.len(),
{
    if s.len() == 0 {
        None
    } else if s[0].0@ == key {
        Some(s[0].1@)
    } else {
        find_tag(s.drop_first(), key)
    }
}

/// No two pairs of the sequence share a key.
pub open spec fn keys_distinct(s: Seq<(String, String)>) -> bool {
    forall|i: int, j: int| 0 <= i < j < s.len() ==> (#[trigger] s[i]).0@ != (#[trigger] s[j]).0@
}

/// A normalized, non-empty tag mapping: key/value pairs with distinct
/// keys, denoting exactly the mapping of the input they were built from.
pub struct TagMap {
    pub pairs: Vec<(String, String)>,
}

impl TagMap {
    /// Well-formedness: at least one pair, and no key twice.
    pub open spec fn wf(&self) -> bool {
        self.pairs@.len() > 0 && keys_distinct(self.pairs@)
    }
}

impl View for TagMap {
    type V = Map<Seq<char>, Seq<char>>;

    open spec fn view(&self) -> Map<Seq<char>, Seq<char>> {
        map_of_pairs(self.pairs@)
    }
}

/// How a normalized result relates to the raw pair sequence it came from:
/// absent exactly for an empty sequence, else a well-formed mapping
/// denoting the same key/value pairs.
pub open spec fn tags_normalized(input: Seq<(String, String)>, r: Option<TagMap>) -> bool {
    match r {
        None => input.len() == 0,
        Some(m) => input.len() > 0 && m.wf() && m@ == map_of_pairs(input),
    }
}

proof fn lemma_map_of_pairs_update(s: Seq<(String, String)>, j: int, p: (String, String))
    requires
        keys_distinct(s),
        0 <= j < s.len(),
        s[j].0@ == p.0@,
    ensures
        map_of_pairs(s.update(j, p)) == map_of_pairs(s).insert(p.0@, p.1@),
        keys_distinct(s.update(j, p)),
    decreases s.len(),
{
    let n = s.len() as int;
    assert(keys_distinct(s.update(j, p))) by {
        assert(forall|a: int, b: int|
            0 <= a < b < n ==> (#[trigger] s.update(j, p)[a]).0@ != (#[trigger] s.update(
                j,
                p,
            )[b]).0@) by {
            assert(forall|a: int| 0 <= a < n ==> (#[trigger] s.update(j, p)[a]).0@ == s[a].0@);
        }
    }
    if j == n - 1 {
        assert(s.update(j, p).drop_last() =~= s.drop_last());
        assert(map_of_pairs(s.update(j, p)) == map_of_pairs(s.drop_last()).insert(p.0@, p.1@));
        assert(map_of_pairs(s.drop_last()).insert(s[j].0@, s[j].1@).insert(p.0@, p.1@)
            =~= map_of_pairs(s.drop_last()).insert(p.0@, p.1@));
    } else {
        let t = s.drop_last();
        assert(keys_distinct(t)) by {
            assert(forall|a: int| 0 <= a < n - 1 ==> (#[trigger] t[a]).0@ == s[a].0@);
        }
        lemma_map_of_pairs_update(t, j, p);
        assert(s.update(j, p).drop_last() =~= t.update(j, p));
        assert(s.update(j, p).last() == s.last());
        assert(map_of_pairs(s.update(j, p)) == map_of_pairs(t).insert(p.0@, p.1@).insert(
            s.last().0@,
            s.last().1@,
        ));
        // the two keys differ, so the inserts commute
        assert(s[j].0@ != s.last().0@);
        assert(map_of_pairs(t).insert(p.0@, p.1@).insert(s.last().0@, s.last().1@)
            =~= map_of_pairs(t).insert(s.last().0@, s.last().1@).insert(p.0@, p.1@));
    }
}

proof fn lemma_map_of_pairs_push(s: Seq<(String, String)>, p: (String, String))
    ensures
        map_of_pairs(s.push(p)) == map_of_pairs(s).insert(p.0@, p.1@),
{
    assert(s.push(p).drop_last() =~= s);
    assert(s.push(p).last() == p);
}

proof fn lemma_map_of_pairs_take_step(s: Seq<(String, String)>, i: int)
    requires
        0 <= i < s.len(),
    ensures
        map_of_pairs(s.take(i + 1)) == map_of_pairs(s.take(i)).insert(s[i].0@, s[i].1@),
{
    assert(s.take(i + 1).drop_last() =~= s.take(i));
    assert(s.take(i + 1).last() == s[i]);
}

/// Normalize a raw tag sequence: `None` exactly when it is empty, else a
/// well-formed [`TagMap`] denoting the mapping of the input, later pairs
/// winning over earlier ones with the same key.
pub fn normalize_tags(tags: &Vec<(String, String)>) -> (r: Option<TagMap>)
    ensures
        tags_normalized(tags@, r),
{
    if tags.len() == 0 {
        return None;
    }
    let mut out: Vec<(String, String)> = Vec::new();
    let mut i: usize = 0;
    while i < tags.len()
        invariant
            0 <= i <= tags@.len(),
            keys_distinct(out@),
            map_of_pairs(out@) == map_of_pairs(tags@.take(i as int)),
            i > 0 ==> out@.len() > 0,
        decreases tags@.len() - i,
    {
        let key: String = tags[i].0.clone();
        let val: String = tags[i].1.clone();
        let mut j: usize = 0;
        let mut found: bool = false;
        let mut fidx: usize = 0;
        while j < out.len()
            invariant
                0 <= j <= out@.len(),
                !found ==> forall|t: int| 0 <= t < j ==> (#[trigger] out@[t]).0@ != key@,
                found ==> fidx < out@.len() && out@[fidx as int].0@ == key@,
            decreases out@.len() - j,
        {
            if !found && out[j].0 == key {
                found = true;
                fidx = j;
            }
            j = j + 1;
        }
        proof {
            lemma_map_of_pairs_take_step(tags@, i as int);
        }
        if found {
            proof {
                lemma_map_of_pairs_update(out@, fidx as int, (key, val));
            }
            out[fidx] = (key, val);
        } else {
            proof {
                lemma_map_of_pairs_push(out@, (key, val));
            }
            out.push((key, val));
        }
        i = i + 1;
    }
    proof {
        assert(tags@.take(tags@.len() as int) =~= tags@);
    }
    Some(TagMap { pairs: out })
}

} // verus!
