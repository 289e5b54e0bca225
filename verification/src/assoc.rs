//! Association lists: a sequence of key/value pairs read as a finite map.
//!
//! The template store keeps its records in a `Vec` in which no name occurs
//! twice, so that it can be searched by identity as well as by name. The
//! definitions here give such a sequence its meaning as a `Map`, and the
//! lemmas say how that map changes when the sequence is extended,
//! overwritten in place, or shortened.

use vstd::prelude::*;

verus! {

/// No key occurs at two positions of `s`.
pub open spec fn distinct_keys<K, V>(s: Seq<(K, V)>) -> bool {
    forall|i: int, j: int| 0 <= i < j < s.len() ==> (#[trigger] s[i]).0 != (#[trigger] s[j]).0
}

/// Some position of `s` holds the key `k`.
pub open spec fn has_key<K, V>(s: Seq<(K, V)>, k: K) -> bool {
    exists|i: int| 0 <= i < s.len() && (#[trigger] s[i]).0 == k
}

/// A position of `s` that holds the key `k`, where there is one.
pub open spec fn position_of<K, V>(s: Seq<(K, V)>, k: K) -> int {
    choose|i: int| 0 <= i < s.len() && (#[trigger] s[i]).0 == k
}

/// The finite map that the pairs of `s` describe.
pub open spec fn as_map<K, V>(s: Seq<(K, V)>) -> Map<K, V> {
    Map::new(|k: K| has_key(s, k), |k: K| s[position_of(s, k)].1)
}

/// With distinct keys, the pair at position `i` is what the map holds for its key.
pub proof fn lemma_entry<K, V>(s: Seq<(K, V)>, i: int)
    requires
        distinct_keys(s),
        0 <= i < s.len(),
    ensures
        has_key(s, s[i].0),
        position_of(s, s[i].0) == i,
        as_map(s).dom().contains(s[i].0),
        as_map(s)[s[i].0] == s[i].1,
{
    let k = s[i].0;
    assert(0 <= i < s.len() && s[i].0 == k);
    let p = position_of(s, k);
    assert(0 <= p < s.len() && s[p].0 == k);
    if p < i {
        assert(s[p].0 != s[i].0);
    } else if i < p {
        assert(s[i].0 != s[p].0);
    }
}

/// Appending a pair under a key that is not yet present inserts it into the map.
pub proof fn lemma_push<K, V>(s: Seq<(K, V)>, k: K, v: V)
    requires
        distinct_keys(s),
        !has_key(s, k),
    ensures
        distinct_keys(s.push((k, v))),
        as_map(s.push((k, v))) == as_map(s).insert(k, v),
{
    let t = s.push((k, v));
    assert forall|i: int, j: int| 0 <= i < j < t.len() implies (#[trigger] t[i]).0 != (#[trigger] t[j]).0 by {
        if j < s.len() {
            assert(t[i] == s[i] && t[j] == s[j]);
        } else {
            assert(t[i] == s[i]);
            assert(0 <= i < s.len());
            if s[i].0 == k {
                assert(has_key(s, k));
            }
        }
    }
    assert forall|q: K| #[trigger] as_map(t).dom().contains(q) == as_map(s).insert(k, v).dom().contains(q) by {
        if has_key(t, q) {
            let p = position_of(t, q);
            if p < s.len() {
                assert(s[p] == t[p]);
                assert(has_key(s, q));
            }
        }
        if has_key(s, q) {
            let p = position_of(s, q);
            assert(t[p] == s[p]);
            assert(has_key(t, q));
        }
        if q == k {
            assert(t[s.len() as int].0 == k);
            assert(has_key(t, q));
        }
    }
    assert forall|q: K| #[trigger] as_map(t).dom().contains(q) implies as_map(t)[q] == as_map(s).insert(k, v)[q] by {
        let p = position_of(t, q);
        lemma_entry(t, p);
        if p < s.len() {
            assert(t[p] == s[p]);
            lemma_entry(s, p);
        }
    }
    assert(as_map(t) =~= as_map(s).insert(k, v));
}

/// Overwriting the value at position `i`, under the same key, overwrites it in the map.
pub proof fn lemma_update<K, V>(s: Seq<(K, V)>, i: int, v: V)
    requires
        distinct_keys(s),
        0 <= i < s.len(),
    ensures
        distinct_keys(s.update(i, (s[i].0, v))),
        as_map(s.update(i, (s[i].0, v))) == as_map(s).insert(s[i].0, v),
{
    let k = s[i].0;
    let t = s.update(i, (k, v));
    assert forall|a: int| 0 <= a < t.len() implies (#[trigger] t[a]).0 == s[a].0 by {}
    assert forall|a: int, b: int| 0 <= a < b < t.len() implies (#[trigger] t[a]).0 != (#[trigger] t[b]).0 by {
        assert(s[a].0 != s[b].0);
    }
    assert forall|q: K| #[trigger] as_map(t).dom().contains(q) == as_map(s).insert(k, v).dom().contains(q) by {
        if has_key(t, q) {
            let p = position_of(t, q);
            assert(s[p].0 == q);
            assert(has_key(s, q));
        }
        if has_key(s, q) {
            let p = position_of(s, q);
            assert(t[p].0 == q);
            assert(has_key(t, q));
        }
        if q == k {
            assert(t[i].0 == k);
            assert(has_key(t, q));
        }
    }
    assert forall|q: K| #[trigger] as_map(t).dom().contains(q) implies as_map(t)[q] == as_map(s).insert(k, v)[q] by {
        let p = position_of(t, q);
        lemma_entry(t, p);
        lemma_entry(s, p);
    }
    assert(as_map(t) =~= as_map(s).insert(k, v));
}

/// Dropping the pair at position `i` removes its key from the map.
pub proof fn lemma_remove<K, V>(s: Seq<(K, V)>, i: int)
    requires
        distinct_keys(s),
        0 <= i < s.len(),
    ensures
        distinct_keys(s.remove(i)),
        as_map(s.remove(i)) == as_map(s).remove(s[i].0),
{
    let k = s[i].0;
    let t = s.remove(i);
    assert forall|a: int| 0 <= a < t.len() implies #[trigger] t[a] == s[if a < i { a } else { a + 1 }] by {}
    assert forall|a: int, b: int| 0 <= a < b < t.len() implies (#[trigger] t[a]).0 != (#[trigger] t[b]).0 by {
        let a2 = if a < i { a } else { a + 1 };
        let b2 = if b < i { b } else { b + 1 };
        assert(s[a2].0 != s[b2].0);
    }
    assert forall|q: K| #[trigger] as_map(t).dom().contains(q) == as_map(s).remove(k).dom().contains(q) by {
        if has_key(t, q) {
            let p = position_of(t, q);
            let origin = if p < i { p } else { p + 1 };
            assert(s[origin].0 == q);
            assert(has_key(s, q));
            if origin < i {
                assert(s[origin].0 != s[i].0);
            } else {
                assert(s[i].0 != s[origin].0);
            }
        }
        if has_key(s, q) && q != k {
            let p = position_of(s, q);
            let moved = if p < i { p } else { p - 1 };
            assert(t[moved] == s[p]);
            assert(has_key(t, q));
        }
    }
    assert forall|q: K| #[trigger] as_map(t).dom().contains(q) implies as_map(t)[q] == as_map(s).remove(k)[q] by {
        let p = position_of(t, q);
        let origin = if p < i { p } else { p + 1 };
        lemma_entry(t, p);
        lemma_entry(s, origin);
    }
    assert(as_map(t) =~= as_map(s).remove(k));
}

/// With distinct keys, the map has as many keys as the sequence has pairs.
pub proof fn lemma_size_of<K, V>(s: Seq<(K, V)>)
    requires
        distinct_keys(s),
    ensures
        as_map(s).dom().finite(),
        as_map(s).dom().len() == s.len(),
    decreases s.len(),
{
    if s.len() == 0 {
        assert(as_map(s).dom() =~= Set::<K>::empty()) by {
            assert forall|k: K| !has_key(s, k) by {}
        }
    } else {
        let last = s.len() - 1;
        let t = s.remove(last);
        lemma_remove(s, last);
        lemma_entry(s, last);
        lemma_size_of(t);
        assert(as_map(s).dom() =~= as_map(t).dom().insert(s[last].0));
    }
}

} // verus!
