//! Sequences of keyed items, read as finite maps.

use vstd::prelude::*;

verus! {

/// No key occurs twice in `s`.
pub open spec fn unique_keys<K, V>(s: Seq<(K, V)>) -> bool {
    forall|i: int, j: int| 0 <= i < j < s.len() ==> s[i].0 != s[j].0
}

/// Some item of `s` has the key `k`.
pub open spec fn has_key<K, V>(s: Seq<(K, V)>, k: K) -> bool {
    exists|i: int| 0 <= i < s.len() && #[trigger] s[i].0 == k
}

/// The position of an item of `s` with the key `k`.
pub open spec fn position<K, V>(s: Seq<(K, V)>, k: K) -> int {
    choose|i: int| 0 <= i < s.len() && #[trigger] s[i].0 == k
}

/// The map from each key of `s` to the value of an item holding it.
pub open spec fn as_map<K, V>(s: Seq<(K, V)>) -> Map<K, V> {
    Map::new(|k: K| has_key(s, k), |k: K| s[position(s, k)].1)
}

/// With unique keys, each item is what the map holds at its key.
pub proof fn lemma_lookup<K, V>(s: Seq<(K, V)>, i: int)
    requires
        unique_keys(s),
        0 <= i < s.len(),
    ensures
        as_map(s).contains_key(s[i].0),
        as_map(s)[s[i].0] == s[i].1,
        position(s, s[i].0) == i,
{
    let k = s[i].0;
    assert(s[i].0 == k);
    let p = position(s, k);
    assert(0 <= p < s.len() && s[p].0 == k);
    if p < i {
        assert(s[p].0 != s[i].0);
    } else if i < p {
        assert(s[i].0 != s[p].0);
    }
}

/// A key that no item holds is not in the map.
pub proof fn lemma_absent<K, V>(s: Seq<(K, V)>, k: K)
    requires
        forall|i: int| 0 <= i < s.len() ==> s[i].0 != k,
    ensures
        !as_map(s).contains_key(k),
{
}

/// The empty sequence is the empty map.
pub proof fn lemma_empty<K, V>()
    ensures
        unique_keys(Seq::<(K, V)>::empty()),
        as_map(Seq::<(K, V)>::empty()) == Map::<K, V>::empty(),
{
    assert(as_map(Seq::<(K, V)>::empty()) =~= Map::<K, V>::empty());
}

/// Appending an item under a new key inserts it into the map.
pub proof fn lemma_push<K, V>(s: Seq<(K, V)>, k: K, v: V)
    requires
        unique_keys(s),
        !as_map(s).contains_key(k),
    ensures
        unique_keys(s.push((k, v))),
        as_map(s.push((k, v))) == as_map(s).insert(k, v),
{
    let t = s.push((k, v));
    assert forall|i: int, j: int| 0 <= i < j < t.len() implies t[i].0 != t[j].0 by {
        if j == s.len() {
            assert(s[i].0 == t[i].0);
            if t[i].0 == k {
                assert(has_key(s, k));
            }
        } else {
            assert(s[i].0 != s[j].0);
        }
    }
    assert forall|q: K| #[trigger] as_map(t).contains_key(q) <==> as_map(s).insert(k, v).contains_key(q) by {
        if has_key(t, q) {
            let i = position(t, q);
            if i < s.len() {
                assert(s[i].0 == q);
            }
        }
        if has_key(s, q) {
            let i = position(s, q);
            assert(t[i].0 == q);
        }
        if q == k {
            assert(t[s.len() as int].0 == q);
        }
    }
    assert forall|q: K| as_map(t).contains_key(q) implies #[trigger] as_map(t)[q] == as_map(s).insert(k, v)[q] by {
        let i = position(t, q);
        lemma_lookup(t, i);
        if i < s.len() {
            assert(s[i] == t[i]);
            lemma_lookup(s, i);
            assert(q != k);
        }
    }
    assert(as_map(t) =~= as_map(s).insert(k, v));
}

/// Replacing the item at a position, under the same key, replaces the value
/// in the map.
pub proof fn lemma_update<K, V>(s: Seq<(K, V)>, i: int, v: V)
    requires
        unique_keys(s),
        0 <= i < s.len(),
    ensures
        unique_keys(s.update(i, (s[i].0, v))),
        as_map(s.update(i, (s[i].0, v))) == as_map(s).insert(s[i].0, v),
{
    let k = s[i].0;
    let t = s.update(i, (k, v));
    assert forall|a: int, b: int| 0 <= a < b < t.len() implies t[a].0 != t[b].0 by {
        assert(t[a].0 == s[a].0);
        assert(t[b].0 == s[b].0);
    }
    assert forall|q: K| #[trigger] as_map(t).contains_key(q) <==> as_map(s).insert(k, v).contains_key(q) by {
        if has_key(t, q) {
            let p = position(t, q);
            assert(s[p].0 == q);
        }
        if has_key(s, q) {
            let p = position(s, q);
            assert(t[p].0 == q);
        }
        if q == k {
            assert(t[i].0 == q);
        }
    }
    assert forall|q: K| as_map(t).contains_key(q) implies #[trigger] as_map(t)[q] == as_map(s).insert(k, v)[q] by {
        let p = position(t, q);
        lemma_lookup(t, p);
        if p != i {
            assert(s[p] == t[p]);
            lemma_lookup(s, p);
        }
    }
    assert(as_map(t) =~= as_map(s).insert(k, v));
}

/// Removing the item at a position removes its key from the map.
pub proof fn lemma_remove<K, V>(s: Seq<(K, V)>, i: int)
    requires
        unique_keys(s),
        0 <= i < s.len(),
    ensures
        unique_keys(s.remove(i)),
        as_map(s.remove(i)) == as_map(s).remove(s[i].0),
{
    let k = s[i].0;
    let t = s.remove(i);
    assert forall|a: int, b: int| 0 <= a < b < t.len() implies t[a].0 != t[b].0 by {
        let first = if a < i { a } else { a + 1 };
        let second = if b < i { b } else { b + 1 };
        assert(t[a] == s[first]);
        assert(t[b] == s[second]);
    }
    assert forall|q: K| #[trigger] as_map(t).contains_key(q) <==> as_map(s).remove(k).contains_key(q) by {
        if has_key(t, q) {
            let p = position(t, q);
            let kept = if p < i { p } else { p + 1 };
            assert(t[p] == s[kept]);
            assert(s[kept].0 == q);
            if q == k {
                if kept < i {
                    assert(s[kept].0 != s[i].0);
                } else {
                    assert(s[i].0 != s[kept].0);
                }
            }
        }
        if has_key(s, q) && q != k {
            let p = position(s, q);
            let moved = if p < i { p } else { p - 1 };
            assert(t[moved] == s[p]);
            assert(t[moved].0 == q);
        }
    }
    assert forall|q: K| as_map(t).contains_key(q) implies #[trigger] as_map(t)[q] == as_map(s).remove(k)[q] by {
        let p = position(t, q);
        lemma_lookup(t, p);
        let kept = if p < i { p } else { p + 1 };
        assert(t[p] == s[kept]);
        lemma_lookup(s, kept);
    }
    assert(as_map(t) =~= as_map(s).remove(k));
}

} // verus!
