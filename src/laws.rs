//! Properties of the stores that span several operations.
use vstd::prelude::*;
use crate::records::{with_applicant, PostingView, ProfileView};
use crate::backend::apply_to;
use crate::table::{has_key, index_of, keys_unique, lemma_index_of, lemma_put, lookup, put};

verus! {

/// The store after storing each of `entries` in turn, first to last.
pub open spec fn put_all<K, V>(s: Seq<(K, V)>, entries: Seq<(K, V)>) -> Seq<(K, V)>
    decreases entries.len(),
{
    if entries.len() == 0 {
        s
    } else {
        put_all(put(s, entries[0].0, entries[0].1), entries.drop_first())
    }
}

/// Registering fresh public ids one after another, each distinct from the
/// others and from those already registered, leaves one entry per id:
/// after `n` such creations on an empty registry it holds `n` distinct keys.
pub proof fn law_fresh_ids_stay_distinct<V>(s: Seq<(Seq<char>, V)>, entries: Seq<(Seq<char>, V)>)
    requires
        keys_unique(s),
        keys_unique(entries),
        forall|i: int| 0 <= i < entries.len() ==> !has_key(s, #[trigger] entries[i].0),
    ensures
        keys_unique(put_all(s, entries)),
        put_all(s, entries).len() == s.len() + entries.len(),
    decreases entries.len(),
{
    if entries.len() > 0 {
        let k = entries[0].0;
        let t = put(s, k, entries[0].1);
        lemma_put(s, k, entries[0].1);
        let rest = entries.drop_first();
        assert forall|i: int| 0 <= i < rest.len() implies !has_key(t, #[trigger] rest[i].0) by {
            assert(rest[i] == entries[i + 1]);
            assert(rest[i].0 != k);
            if has_key(t, rest[i].0) {
                let j = index_of(t, rest[i].0);
                if j < s.len() {
                    assert(s[j].0 == rest[i].0);
                }
            }
        }
        assert(keys_unique(rest)) by {
            assert forall|a: int, b: int|
                0 <= a < rest.len() && 0 <= b < rest.len() && a != b implies #[trigger] rest[a].0
                != #[trigger] rest[b].0 by {
                assert(rest[a] == entries[a + 1]);
                assert(rest[b] == entries[b + 1]);
            }
        }
        law_fresh_ids_stay_distinct(t, rest);
    }
}

/// After `update` with profile `p` for a caller who has a profile, the
/// caller's stored profile is exactly `p`; for a caller without one the
/// store is left as it was.
pub proof fn law_update_overwrites(s: Seq<(Seq<u8>, ProfileView)>, who: Seq<u8>, p: ProfileView)
    requires
        keys_unique(s),
    ensures
        has_key(s, who) ==> lookup(put(s, who, p), who) == Some(p),
        has_key(s, who) ==> put(s, who, p).len() == s.len(),
        !has_key(s, who) ==> lookup(s, who) is None,
{
    lemma_put(s, who, p);
}

/// Applying twice with the same caller appends that caller twice: the
/// applicant list grows by two.
pub proof fn law_apply_twice_appends_twice<K>(s: Seq<(K, PostingView)>, k: K, who: Seq<u8>)
    requires
        keys_unique(s),
        has_key(s, k),
    ensures
        lookup(apply_to(apply_to(s, k, who), k, who), k) == Some(
            with_applicant(with_applicant(lookup(s, k)->Some_0, who), who),
        ),
        lookup(apply_to(apply_to(s, k, who), k, who), k)->Some_0.applicants.len() == lookup(
            s,
            k,
        )->Some_0.applicants.len() + 2,
{
    let p = lookup(s, k)->Some_0;
    let t = put(s, k, with_applicant(p, who));
    lemma_put(s, k, with_applicant(p, who));
    lemma_put(t, k, with_applicant(with_applicant(p, who), who));
}

/// A second job posting by the same creator replaces the first: the store
/// is the same as if only the second had been made, holds no creator
/// twice, and the posting under that creator is the second.
pub proof fn law_second_job_replaces_first(
    s: Seq<(Seq<u8>, PostingView)>,
    who: Seq<u8>,
    first: PostingView,
    second: PostingView,
)
    requires
        keys_unique(s),
    ensures
        put(put(s, who, first), who, second) == put(s, who, second),
        lookup(put(put(s, who, first), who, second), who) == Some(second),
        keys_unique(put(put(s, who, first), who, second)),
{
    let t = put(s, who, first);
    lemma_put(s, who, first);
    lemma_put(t, who, second);
    lemma_put(s, who, second);
    if has_key(s, who) {
        let i = index_of(s, who);
        assert(s[i].0 == who);
        lemma_index_of(t, i);
        assert(put(t, who, second) =~= put(s, who, second));
    } else {
        let n = s.len() as int;
        assert(t[n].0 == who);
        lemma_index_of(t, n);
        assert(put(t, who, second) =~= put(s, who, second));
    }
}

} // verus!
