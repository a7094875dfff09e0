//! Keyed stores held as lists of entries with distinct keys, in the order in
//! which their keys were first stored.
use vstd::prelude::*;
use crate::identity::Identity;

verus! {

/// The value of each entry of a store.
pub open spec fn pairs_view<K: View, V: View>(s: Seq<(K, V)>) -> Seq<(K::V, V::V)> {
    s.map_values(|e: (K, V)| (e.0@, e.1@))
}

/// No key stands in two entries.
pub open spec fn keys_unique<K, V>(s: Seq<(K, V)>) -> bool {
    forall|i: int, j: int|
        0 <= i < s.len() && 0 <= j < s.len() && i != j ==> #[trigger] s[i].0 != #[trigger] s[j].0
}

/// Some entry has key `k`.
pub open spec fn has_key<K, V>(s: Seq<(K, V)>, k: K) -> bool {
    exists|i: int| 0 <= i < s.len() && #[trigger] s[i].0 == k
}

/// The position of the entry with key `k`.
pub open spec fn index_of<K, V>(s: Seq<(K, V)>, k: K) -> int
    recommends
        has_key(s, k),
{
    choose|i: int| 0 <= i < s.len() && #[trigger] s[i].0 == k
}

/// The value stored under `k`, if any.
pub open spec fn lookup<K, V>(s: Seq<(K, V)>, k: K) -> Option<V> {
    if has_key(s, k) {
        Some(s[index_of(s, k)].1)
    } else {
        None
    }
}

/// The store after storing `v` under `k`: an entry with that key is replaced
/// where it stands; otherwise the entry goes at the end.
pub open spec fn put<K, V>(s: Seq<(K, V)>, k: K, v: V) -> Seq<(K, V)> {
    if has_key(s, k) {
        s.update(index_of(s, k), (k, v))
    } else {
        s.push((k, v))
    }
}

/// In a store with distinct keys, the entry found at `i` is the one for its key.
pub proof fn lemma_index_of<K, V>(s: Seq<(K, V)>, i: int)
    requires
        keys_unique(s),
        0 <= i < s.len(),
    ensures
        has_key(s, s[i].0),
        index_of(s, s[i].0) == i,
        lookup(s, s[i].0) == Some(s[i].1),
{
    assert(has_key(s, s[i].0));
    let j = index_of(s, s[i].0);
    assert(s[j].0 == s[i].0);
}

/// Storing a value keeps the keys distinct, and the value is then found.
pub proof fn lemma_put<K, V>(s: Seq<(K, V)>, k: K, v: V)
    requires
        keys_unique(s),
    ensures
        keys_unique(put(s, k, v)),
        lookup(put(s, k, v), k) == Some(v),
        forall|k2: K| k2 != k ==> lookup(#[trigger] put(s, k, v), k2) == lookup(s, k2),
        put(s, k, v).len() == if has_key(s, k) { s.len() } else { s.len() + 1 },
{
    let t = put(s, k, v);
    if has_key(s, k) {
        let i = index_of(s, k);
        assert(s[i].0 == k);
        assert(t[i].0 == k);
    } else {
        assert(t[s.len() as int].0 == k);
    }
    assert(keys_unique(t));
    let i = if has_key(s, k) { index_of(s, k) } else { s.len() as int };
    lemma_index_of(t, i);
    assert forall|k2: K| k2 != k implies lookup(#[trigger] put(s, k, v), k2) == lookup(s, k2) by {
        if has_key(s, k2) {
            let j = index_of(s, k2);
            assert(t[j].0 == k2);
            lemma_index_of(t, j);
        } else {
            if has_key(t, k2) {
                let j = index_of(t, k2);
                assert(s[j].0 == k2);
            }
        }
    }
}

/// The position of the entry whose key has the characters of `k`.
pub fn find_text<V>(s: &Vec<(String, V)>, k: &String) -> (r: Option<usize>)
    ensures
        match r {
            Some(i) => i < s@.len() && s@[i as int].0@ == k@,
            None => forall|j: int| 0 <= j < s@.len() ==> (#[trigger] s@[j]).0@ != k@,
        },
{
    let mut i: usize = 0;
    while i < s.len()
        invariant
            i <= s@.len(),
            forall|j: int| 0 <= j < i ==> (#[trigger] s@[j]).0@ != k@,
        decreases s@.len() - i,
    {
        if s[i].0 == *k {
            return Some(i);
        }
        i = i + 1;
    }
    None
}

/// The position of the entry whose key names the principal `k`.
pub fn find_identity<V>(s: &Vec<(Identity, V)>, k: &Identity) -> (r: Option<usize>)
    ensures
        match r {
            Some(i) => i < s@.len() && s@[i as int].0@ == k@,
            None => forall|j: int| 0 <= j < s@.len() ==> (#[trigger] s@[j]).0@ != k@,
        },
{
    let mut i: usize = 0;
    while i < s.len()
        invariant
            i <= s@.len(),
            forall|j: int| 0 <= j < i ==> (#[trigger] s@[j]).0@ != k@,
        decreases s@.len() - i,
    {
        if s[i].0.same(k) {
            return Some(i);
        }
        i = i + 1;
    }
    None
}

/// Where `find_text` or `find_identity` answered, the answer is the store's
/// view of that key.
pub proof fn lemma_found<K: View, V: View>(s: Seq<(K, V)>, k: K::V, r: Option<usize>)
    requires
        keys_unique(pairs_view(s)),
        match r {
            Some(i) => i < s.len() && s[i as int].0@ == k,
            None => forall|j: int| 0 <= j < s.len() ==> (#[trigger] s[j]).0@ != k,
        },
    ensures
        match r {
            Some(i) => has_key(pairs_view(s), k) && index_of(pairs_view(s), k) == i
                && lookup(pairs_view(s), k) == Some(s[i as int].1@),
            None => !has_key(pairs_view(s), k) && lookup(pairs_view(s), k) is None,
        },
{
    let p = pairs_view(s);
    match r {
        Some(i) => {
            lemma_index_of(p, i as int);
        },
        None => {
            if has_key(p, k) {
                let j = index_of(p, k);
                assert(s[j].0@ == k);
            }
        },
    }
}

/// Stores `v` under `k`, keeping keys distinct.
pub fn put_text<V: View>(s: &mut Vec<(String, V)>, k: String, v: V)
    requires
        keys_unique(pairs_view(old(s)@)),
    ensures
        pairs_view(final(s)@) == put(pairs_view(old(s)@), k@, v@),
        keys_unique(pairs_view(final(s)@)),
{
    let ghost p = pairs_view(s@);
    let ghost kv = k@;
    let ghost vv = v@;
    let found = find_text(s, &k);
    proof {
        lemma_found(s@, k@, found);
        lemma_put(p, kv, vv);
    }
    match found {
        Some(i) => {
            s.set(i, (k, v));
            assert(pairs_view(s@) == p.update(i as int, (kv, vv)));
        },
        None => {
            s.push((k, v));
            assert(pairs_view(s@) == p.push((kv, vv)));
        },
    }
}

/// Stores `v` under `k`, keeping keys distinct.
pub fn put_identity<V: View>(s: &mut Vec<(Identity, V)>, k: Identity, v: V)
    requires
        keys_unique(pairs_view(old(s)@)),
    ensures
        pairs_view(final(s)@) == put(pairs_view(old(s)@), k@, v@),
        keys_unique(pairs_view(final(s)@)),
{
    let ghost p = pairs_view(s@);
    let ghost kv = k@;
    let ghost vv = v@;
    let found = find_identity(s, &k);
    proof {
        lemma_found(s@, k@, found);
        lemma_put(p, kv, vv);
    }
    match found {
        Some(i) => {
            s.set(i, (k, v));
            assert(pairs_view(s@) == p.update(i as int, (kv, vv)));
        },
        None => {
            s.push((k, v));
            assert(pairs_view(s@) == p.push((kv, vv)));
        },
    }
}

} // verus!
