//! Rows kept in a sequence and read as a map from key to row.
//!
//! A store keeps at most one live row for a key. Its rows sit in a vector;
//! its contracts speak of the map that the vector stands for. The lemmas here
//! tie the two together.

use vstd::prelude::*;

verus! {

/// No key occurs in two places.
pub open spec fn keys_distinct<K, V>(s: Seq<(K, V)>) -> bool {
    forall|i: int, j: int| 0 <= i < j < s.len() ==> (#[trigger] s[i]).0 != (#[trigger] s[j]).0
}

/// Some entry has the key `k`.
pub open spec fn has_key<K, V>(s: Seq<(K, V)>, k: K) -> bool {
    exists|i: int| 0 <= i < s.len() && (#[trigger] s[i]).0 == k
}

/// The map that a sequence of entries stands for; a later entry wins.
pub open spec fn assoc_map<K, V>(s: Seq<(K, V)>) -> Map<K, V>
    decreases s.len(),
{
    if s.len() == 0 {
        Map::empty()
    } else {
        assoc_map(s.drop_last()).insert(s.last().0, s.last().1)
    }
}

/// The map's domain is the set of keys that occur.
pub proof fn lemma_assoc_dom<K, V>(s: Seq<(K, V)>, k: K)
    ensures
        assoc_map(s).dom().contains(k) <==> has_key(s, k),
    decreases s.len(),
{
    if s.len() > 0 {
        let t = s.drop_last();
        lemma_assoc_dom(t, k);
        if has_key(s, k) {
            let i = choose|i: int| 0 <= i < s.len() && (#[trigger] s[i]).0 == k;
            if i < s.len() - 1 {
                assert(t[i].0 == k);
            }
        }
        if has_key(t, k) {
            let i = choose|i: int| 0 <= i < t.len() && (#[trigger] t[i]).0 == k;
            assert(s[i].0 == k);
        }
        if s.last().0 == k {
            assert(s[s.len() - 1].0 == k);
        }
    }
}

/// Under distinct keys the map holds each entry under its key.
pub proof fn lemma_assoc_value<K, V>(s: Seq<(K, V)>, i: int)
    requires
        keys_distinct(s),
        0 <= i < s.len(),
    ensures
        assoc_map(s).dom().contains(s[i].0),
        assoc_map(s)[s[i].0] == s[i].1,
    decreases s.len(),
{
    let t = s.drop_last();
    if i < s.len() - 1 {
        assert(keys_distinct(t)) by {
            assert forall|a: int, b: int| 0 <= a < b < t.len() implies (#[trigger] t[a]).0 != (
            #[trigger] t[b]).0 by {
                assert(s[a].0 != s[b].0);
            }
        }
        lemma_assoc_value(t, i);
        assert(s[i].0 != s[s.len() - 1].0);
    }
}

/// Appending an entry inserts it; a fresh key keeps the keys distinct.
pub proof fn lemma_assoc_push<K, V>(s: Seq<(K, V)>, k: K, v: V)
    ensures
        assoc_map(s.push((k, v))) == assoc_map(s).insert(k, v),
        keys_distinct(s) && !has_key(s, k) ==> keys_distinct(s.push((k, v))),
{
    let p = s.push((k, v));
    assert(p.drop_last() =~= s);
    if keys_distinct(s) && !has_key(s, k) {
        assert forall|a: int, b: int| 0 <= a < b < p.len() implies (#[trigger] p[a]).0 != (
        #[trigger] p[b]).0 by {
            if b < s.len() {
                assert(s[a].0 != s[b].0);
            } else {
                assert(s[a].0 != k);
            }
        }
    }
}

/// Under distinct keys, taking an entry out removes its key and no other.
pub proof fn lemma_assoc_remove<K, V>(s: Seq<(K, V)>, i: int)
    requires
        keys_distinct(s),
        0 <= i < s.len(),
    ensures
        assoc_map(s.remove(i)) == assoc_map(s).remove(s[i].0),
        keys_distinct(s.remove(i)),
        !has_key(s.remove(i), s[i].0),
{
    let r = s.remove(i);
    let k = s[i].0;
    assert forall|a: int, b: int| 0 <= a < b < r.len() implies (#[trigger] r[a]).0 != (
    #[trigger] r[b]).0 by {
        let a2 = if a < i { a } else { a + 1 };
        let b2 = if b < i { b } else { b + 1 };
        assert(s[a2].0 != s[b2].0);
    }
    if has_key(r, k) {
        let a = choose|a: int| 0 <= a < r.len() && (#[trigger] r[a]).0 == k;
        let a2 = if a < i { a } else { a + 1 };
        assert(s[a2].0 == k);
        if a2 < i {
            assert(s[a2].0 != s[i].0);
        } else {
            assert(s[i].0 != s[a2].0);
        }
    }
    assert forall|key: K| #[trigger] assoc_map(r).dom().contains(key) <==> assoc_map(s).remove(
        k,
    ).dom().contains(key) by {
        lemma_assoc_dom(r, key);
        lemma_assoc_dom(s, key);
        if has_key(r, key) {
            let a = choose|a: int| 0 <= a < r.len() && (#[trigger] r[a]).0 == key;
            let a2 = if a < i { a } else { a + 1 };
            assert(s[a2].0 == key);
        }
        if has_key(s, key) && key != k {
            let a = choose|a: int| 0 <= a < s.len() && (#[trigger] s[a]).0 == key;
            let a2 = if a < i { a } else { a - 1 };
            assert(r[a2].0 == key);
        }
    }
    assert forall|key: K| #[trigger] assoc_map(r).dom().contains(key) implies assoc_map(r)[key]
        == assoc_map(s).remove(k)[key] by {
        lemma_assoc_dom(r, key);
        let a = choose|a: int| 0 <= a < r.len() && (#[trigger] r[a]).0 == key;
        let a2 = if a < i { a } else { a + 1 };
        lemma_assoc_value(r, a);
        lemma_assoc_value(s, a2);
    }
    assert(assoc_map(r) =~= assoc_map(s).remove(k));
}

/// The first element that satisfies `p`, if any does.
pub open spec fn first_match<T>(s: Seq<T>, p: spec_fn(T) -> bool) -> Option<T>
    decreases s.len(),
{
    if s.len() == 0 {
        None
    } else if p(s[0]) {
        Some(s[0])
    } else {
        first_match(s.drop_first(), p)
    }
}

/// A search that has passed `i` elements without a match has the rest to go.
pub proof fn lemma_first_match_from<T>(s: Seq<T>, p: spec_fn(T) -> bool, i: int)
    requires
        0 <= i <= s.len(),
        forall|j: int| 0 <= j < i ==> !p(#[trigger] s[j]),
    ensures
        first_match(s, p) == first_match(s.skip(i), p),
        i < s.len() && p(s[i]) ==> first_match(s, p) == Some(s[i]),
        i == s.len() ==> first_match(s, p) is None,
    decreases i,
{
    if i == 0 {
        assert(s.skip(0) =~= s);
    } else {
        lemma_first_match_from(s, p, i - 1);
        let t = s.skip(i - 1);
        assert(t[0] == s[i - 1]);
        assert(t.drop_first() =~= s.skip(i));
    }
    if i < s.len() {
        assert(s.skip(i)[0] == s[i]);
    }
}

/// What a search finds is an element, it satisfies `p`, and where nothing
/// is found no element does.
pub proof fn lemma_first_match_is_member<T>(s: Seq<T>, p: spec_fn(T) -> bool)
    ensures
        match first_match(s, p) {
            Some(x) => p(x) && exists|i: int| 0 <= i < s.len() && #[trigger] s[i] == x,
            None => forall|i: int| 0 <= i < s.len() ==> !p(#[trigger] s[i]),
        },
    decreases s.len(),
{
    if s.len() > 0 {
        if p(s[0]) {
            assert(s[0] == s[0]);
        } else {
            let t = s.drop_first();
            lemma_first_match_is_member(t, p);
            match first_match(t, p) {
                Some(x) => {
                    let i = choose|i: int| 0 <= i < t.len() && #[trigger] t[i] == x;
                    assert(s[i + 1] == x);
                },
                None => {
                    assert forall|i: int| 0 <= i < s.len() implies !p(#[trigger] s[i]) by {
                        if i > 0 {
                            assert(t[i - 1] == s[i]);
                        }
                    }
                },
            }
        }
    }
}

} // verus!
