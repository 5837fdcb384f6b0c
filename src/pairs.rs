//! Lists of (key, value) text pairs with unique keys, viewed as maps.
//!
//! Header sets and parameter sets are held as such lists: a key occurs at
//! most once, and setting a key that is present replaces its value in place.
use vstd::prelude::*;

verus! {

/// The view of a list of owned text pairs.
pub open spec fn string_pairs(s: Seq<(String, String)>) -> Seq<(Seq<char>, Seq<char>)> {
    s.map_values(|p: (String, String)| (p.0@, p.1@))
}

/// The view of a list of borrowed text pairs.
pub open spec fn str_pairs(s: Seq<(&str, &str)>) -> Seq<(Seq<char>, Seq<char>)> {
    s.map_values(|p: (&str, &str)| (p.0@, p.1@))
}

/// `m` with the pairs of `s` written over it in order: a later pair wins.
pub open spec fn overlay(
    m: Map<Seq<char>, Seq<char>>,
    s: Seq<(Seq<char>, Seq<char>)>,
) -> Map<Seq<char>, Seq<char>>
    decreases s.len(),
{
    if s.len() == 0 {
        m
    } else {
        overlay(m, s.drop_last()).insert(s.last().0, s.last().1)
    }
}

/// The map that a list of pairs stands for.
pub open spec fn pairs_map(s: Seq<(Seq<char>, Seq<char>)>) -> Map<Seq<char>, Seq<char>> {
    overlay(Map::empty(), s)
}

/// No key occurs twice.
pub open spec fn keys_unique(s: Seq<(Seq<char>, Seq<char>)>) -> bool {
    forall|i: int, j: int| 0 <= i < j < s.len() ==> s[i].0 != s[j].0
}

/// A key of the map is a key of some pair; each pair's key maps to a value
/// that some pair with that key holds (the last one).
pub proof fn lemma_overlay_dom(m: Map<Seq<char>, Seq<char>>, s: Seq<(Seq<char>, Seq<char>)>, k: Seq<char>)
    ensures
        overlay(m, s).contains_key(k) <==> (m.contains_key(k) || exists|i: int|
            0 <= i < s.len() && s[i].0 == k),
    decreases s.len(),
{
    if s.len() > 0 {
        lemma_overlay_dom(m, s.drop_last(), k);
        if exists|i: int| 0 <= i < s.drop_last().len() && s.drop_last()[i].0 == k {
            let i = choose|i: int| 0 <= i < s.drop_last().len() && s.drop_last()[i].0 == k;
            assert(s[i].0 == k);
        }
        if exists|i: int| 0 <= i < s.len() && s[i].0 == k {
            let i = choose|i: int| 0 <= i < s.len() && s[i].0 == k;
            if i < s.len() - 1 {
                assert(s.drop_last()[i].0 == k);
            }
        }
    }
}

/// With unique keys, each pair's key maps to that pair's value.
pub proof fn lemma_pairs_map_at(s: Seq<(Seq<char>, Seq<char>)>, i: int)
    requires
        keys_unique(s),
        0 <= i < s.len(),
    ensures
        pairs_map(s).contains_key(s[i].0),
        pairs_map(s)[s[i].0] == s[i].1,
    decreases s.len(),
{
    if i < s.len() - 1 {
        lemma_pairs_map_at(s.drop_last(), i);
    }
}

/// A key of the map of a key-unique list is the key of exactly the pair found.
pub proof fn lemma_pairs_map_key(s: Seq<(Seq<char>, Seq<char>)>, k: Seq<char>) -> (i: int)
    requires
        keys_unique(s),
        pairs_map(s).contains_key(k),
    ensures
        0 <= i < s.len(),
        s[i].0 == k,
        pairs_map(s)[k] == s[i].1,
{
    lemma_overlay_dom(Map::empty(), s, k);
    let i = choose|i: int| 0 <= i < s.len() && s[i].0 == k;
    lemma_pairs_map_at(s, i);
    i
}

/// The index of the pair whose key is `key`, if any.
pub fn find_key(v: &Vec<(String, String)>, key: &str) -> (r: Option<usize>)
    ensures
        match r {
            Some(i) => i < v@.len() && v@[i as int].0@ == key@,
            None => forall|i: int| 0 <= i < v@.len() ==> v@[i].0@ != key@,
        },
{
    let k = key.to_owned();
    let mut i: usize = 0;
    while i < v.len()
        invariant
            i <= v@.len(),
            k@ == key@,
            forall|j: int| 0 <= j < i ==> v@[j].0@ != key@,
        decreases v@.len() - i,
    {
        if v[i].0 == k {
            return Some(i);
        }
        i = i + 1;
    }
    None
}

/// Sets `key` to `value`: replaces the value where the key is present, and
/// appends the pair where it is not.
pub fn set_pair(v: &mut Vec<(String, String)>, key: &str, value: &str)
    requires
        keys_unique(string_pairs(old(v)@)),
    ensures
        keys_unique(string_pairs(final(v)@)),
        pairs_map(string_pairs(final(v)@)) == pairs_map(string_pairs(old(v)@)).insert(key@, value@),
{
    let ghost s0 = string_pairs(v@);
    let p = (key.to_owned(), value.to_owned());
    match find_key(v, key) {
        Some(i) => {
            v.set(i, p);
            let ghost s1 = string_pairs(v@);
            assert(s1 =~= s0.update(i as int, (key@, value@)));
            assert forall|a: int, b: int| 0 <= a < b < s1.len() implies s1[a].0 != s1[b].0 by {
                assert(s0[a].0 != s0[b].0);
            }
            let ghost m0 = pairs_map(s0);
            let ghost m1 = pairs_map(s1);
            assert forall|k: Seq<char>| #[trigger] m1.contains_key(k) == m0.insert(key@, value@).contains_key(k) by {
                lemma_overlay_dom(Map::empty(), s0, k);
                lemma_overlay_dom(Map::empty(), s1, k);
                if k == key@ {
                    assert(s1[i as int].0 == k);
                    assert(s0[i as int].0 == k);
                } else {
                    if exists|j: int| 0 <= j < s0.len() && s0[j].0 == k {
                        let j = choose|j: int| 0 <= j < s0.len() && s0[j].0 == k;
                        assert(s1[j].0 == k);
                    }
                    if exists|j: int| 0 <= j < s1.len() && s1[j].0 == k {
                        let j = choose|j: int| 0 <= j < s1.len() && s1[j].0 == k;
                        assert(s0[j].0 == k);
                    }
                }
            }
            assert forall|k: Seq<char>| m1.contains_key(k) implies #[trigger] m1[k] == m0.insert(key@, value@)[k] by {
                let j = lemma_pairs_map_key(s1, k);
                if k == key@ {
                    assert(s1[i as int].0 == k);
                    assert(j == i);
                } else {
                    assert(j != i);
                    assert(s0[j] == s1[j]);
                    lemma_pairs_map_at(s0, j);
                }
            }
            assert(m1 =~= m0.insert(key@, value@));
        },
        None => {
            v.push(p);
            let ghost s1 = string_pairs(v@);
            assert(s1 =~= s0.push((key@, value@)));
            assert(s1.drop_last() =~= s0);
            assert forall|a: int, b: int| 0 <= a < b < s1.len() implies s1[a].0 != s1[b].0 by {
                if b < s0.len() {
                    assert(s0[a].0 != s0[b].0);
                } else {
                    assert(s0[a].0 == v@[a].0@);
                }
            }
        },
    }
}

/// The value under `key`, if any.
pub fn get_pair(v: &Vec<(String, String)>, key: &str) -> (r: Option<String>)
    requires
        keys_unique(string_pairs(v@)),
    ensures
        match r {
            Some(s) => pairs_map(string_pairs(v@)).contains_key(key@)
                && s@ == pairs_map(string_pairs(v@))[key@],
            None => !pairs_map(string_pairs(v@)).contains_key(key@),
        },
{
    let ghost s = string_pairs(v@);
    proof {
        lemma_overlay_dom(Map::empty(), s, key@);
    }
    match find_key(v, key) {
        Some(i) => {
            proof {
                lemma_pairs_map_at(s, i as int);
            }
            Some(v[i].1.clone())
        },
        None => {
            assert forall|j: int| 0 <= j < s.len() implies s[j].0 != key@ by {
                assert(s[j].0 == v@[j].0@);
            }
            None
        },
    }
}

} // verus!
