//! Association lists: sequences of keys with their values, seen as maps.

use vstd::prelude::*;

verus! {

/// No key stands twice in the list.
pub open spec fn distinct<K, V>(s: Seq<(K, V)>) -> bool {
    forall|i: int, j: int|
        0 <= i < j < s.len() ==> (#[trigger] s[i]).0 != (#[trigger] s[j]).0
}

/// The key `k` stands in the list.
pub open spec fn has_key<K, V>(s: Seq<(K, V)>, k: K) -> bool {
    exists|i: int| 0 <= i < s.len() && (#[trigger] s[i]).0 == k
}

/// A position at which the key `k` stands.
pub open spec fn position<K, V>(s: Seq<(K, V)>, k: K) -> int {
    choose|i: int| 0 <= i < s.len() && (#[trigger] s[i]).0 == k
}

/// The map that the list stands for.
pub open spec fn as_map<K, V>(s: Seq<(K, V)>) -> Map<K, V> {
    Map::new(|k: K| has_key(s, k), |k: K| s[position(s, k)].1)
}

/// The part of the map whose values have the property `keep`.
pub open spec fn kept<K, V>(m: Map<K, V>, keep: spec_fn(V) -> bool) -> Map<K, V> {
    Map::new(|k: K| m.contains_key(k) && keep(m[k]), |k: K| m[k])
}

pub proof fn lemma_lookup<K, V>(s: Seq<(K, V)>, i: int)
    requires
        distinct(s),
        0 <= i < s.len(),
    ensures
        as_map(s).contains_key(s[i].0),
        as_map(s)[s[i].0] == s[i].1,
        position(s, s[i].0) == i,
{
    let p = position(s, s[i].0);
    assert(0 <= p < s.len() && s[p].0 == s[i].0);
}

pub proof fn lemma_push<K, V>(s: Seq<(K, V)>, k: K, v: V)
    requires
        distinct(s),
        !has_key(s, k),
    ensures
        distinct(s.push((k, v))),
        as_map(s.push((k, v))) == as_map(s).insert(k, v),
{
    let t = s.push((k, v));
    assert(distinct(t));
    assert forall|key: K| has_key(t, key) <==> (has_key(s, key) || key == k) by {
        if has_key(s, key) {
            let i = position(s, key);
            assert(t[i].0 == key);
        }
        assert(t[s.len() as int].0 == k);
    }
    assert forall|key: K| has_key(t, key) implies #[trigger] as_map(t)[key] == as_map(s).insert(
        k,
        v,
    )[key] by {
        let i = position(t, key);
        lemma_lookup(t, i);
        if i < s.len() {
            assert(s[i] == t[i]);
            lemma_lookup(s, i);
        }
    }
    assert(as_map(t) =~= as_map(s).insert(k, v));
}

pub proof fn lemma_update<K, V>(s: Seq<(K, V)>, i: int, v: V)
    requires
        distinct(s),
        0 <= i < s.len(),
    ensures
        distinct(s.update(i, (s[i].0, v))),
        as_map(s.update(i, (s[i].0, v))) == as_map(s).insert(s[i].0, v),
{
    let t = s.update(i, (s[i].0, v));
    assert forall|a: int, b: int| 0 <= a < b < t.len() implies (#[trigger] t[a]).0 != (
    #[trigger] t[b]).0 by {
        assert(t[a].0 == s[a].0);
        assert(t[b].0 == s[b].0);
    }
    assert forall|key: K| has_key(t, key) <==> has_key(s, key) by {
        if has_key(s, key) {
            let p = position(s, key);
            assert(t[p].0 == key);
        }
        if has_key(t, key) {
            let p = position(t, key);
            assert(s[p].0 == key);
        }
    }
    assert forall|key: K| has_key(t, key) implies #[trigger] as_map(t)[key] == as_map(s).insert(
        s[i].0,
        v,
    )[key] by {
        let p = position(t, key);
        lemma_lookup(t, p);
        assert(t[p].0 == s[p].0);
        lemma_lookup(s, p);
        lemma_lookup(s, i);
    }
    lemma_lookup(s, i);
    assert(as_map(t) =~= as_map(s).insert(s[i].0, v));
}

pub proof fn lemma_remove<K, V>(s: Seq<(K, V)>, i: int)
    requires
        distinct(s),
        0 <= i < s.len(),
    ensures
        distinct(s.remove(i)),
        as_map(s.remove(i)) == as_map(s).remove(s[i].0),
{
    let t = s.remove(i);
    assert forall|a: int, b: int| 0 <= a < b < t.len() implies (#[trigger] t[a]).0 != (
    #[trigger] t[b]).0 by {
        let x = if a < i { a } else { a + 1 };
        let y = if b < i { b } else { b + 1 };
        assert(t[a] == s[x]);
        assert(t[b] == s[y]);
    }
    assert forall|key: K| has_key(t, key) <==> (has_key(s, key) && key != s[i].0) by {
        if has_key(s, key) && key != s[i].0 {
            let p = position(s, key);
            let q = if p < i { p } else { p - 1 };
            assert(t[q] == s[p]);
        }
        if has_key(t, key) {
            let q = position(t, key);
            let p = if q < i { q } else { q + 1 };
            assert(t[q] == s[p]);
        }
    }
    assert forall|key: K| has_key(t, key) implies #[trigger] as_map(t)[key] == as_map(s)[key] by {
        let q = position(t, key);
        let p = if q < i { q } else { q + 1 };
        assert(t[q] == s[p]);
        lemma_lookup(t, q);
        lemma_lookup(s, p);
    }
    assert(as_map(t) =~= as_map(s).remove(s[i].0));
}

pub proof fn lemma_len<K, V>(s: Seq<(K, V)>)
    requires
        distinct(s),
    ensures
        as_map(s).dom().finite(),
        as_map(s).dom().len() == s.len(),
    decreases s.len(),
{
    if s.len() == 0 {
        assert(as_map(s).dom() =~= Set::empty());
    } else {
        let t = s.drop_last();
        assert forall|a: int, b: int| 0 <= a < b < t.len() implies (#[trigger] t[a]).0 != (
        #[trigger] t[b]).0 by {
            assert(t[a] == s[a]);
            assert(t[b] == s[b]);
        }
        lemma_len(t);
        assert(!has_key(t, s.last().0)) by {
            if has_key(t, s.last().0) {
                let p = position(t, s.last().0);
                assert(t[p] == s[p]);
                assert(s[s.len() - 1].0 == s.last().0);
            }
        }
        lemma_push(t, s.last().0, s.last().1);
        assert(t.push((s.last().0, s.last().1)) =~= s);
    }
}

/// Extending the list by one entry, and what is kept of it by that entry where it is kept.
pub proof fn lemma_keep_step<K, V>(
    s: Seq<(K, V)>,
    i: int,
    out: Seq<(K, V)>,
    keep: spec_fn(V) -> bool,
)
    requires
        distinct(s),
        0 <= i < s.len(),
        distinct(out),
        as_map(out) == kept(as_map(s.take(i)), keep),
    ensures
        as_map(s.take(i + 1)) == as_map(s.take(i)).insert(s[i].0, s[i].1),
        keep(s[i].1) ==> {
            &&& distinct(out.push(s[i]))
            &&& as_map(out.push(s[i])) == kept(as_map(s.take(i + 1)), keep)
        },
        !keep(s[i].1) ==> as_map(out) == kept(as_map(s.take(i + 1)), keep),
{
    let t = s.take(i);
    assert(distinct(t)) by {
        assert forall|a: int, b: int| 0 <= a < b < t.len() implies (#[trigger] t[a]).0 != (
        #[trigger] t[b]).0 by {
            assert(t[a] == s[a]);
            assert(t[b] == s[b]);
        }
    }
    assert(!has_key(t, s[i].0)) by {
        if has_key(t, s[i].0) {
            let p = position(t, s[i].0);
            assert(t[p] == s[p]);
        }
    }
    assert(!as_map(t).contains_key(s[i].0));
    lemma_push(t, s[i].0, s[i].1);
    assert(t.push((s[i].0, s[i].1)) =~= s.take(i + 1));
    assert(!as_map(out).contains_key(s[i].0));
    if keep(s[i].1) {
        lemma_push(out, s[i].0, s[i].1);
        assert(out.push((s[i].0, s[i].1)) =~= out.push(s[i]));
        assert(as_map(out.push(s[i])) =~= kept(as_map(s.take(i + 1)), keep));
    } else {
        assert(as_map(out) =~= kept(as_map(s.take(i + 1)), keep));
    }
}

} // verus!
