use vstd::prelude::*;

verus! {

/// The value bound to the first entry of `es` whose key is `k`, if any.
pub open spec fn assoc_of<K, V>(es: Seq<(K, V)>, k: K) -> Option<V>
    decreases es.len(),
{
    if es.len() == 0 {
        None
    } else if es[0].0 == k {
        Some(es[0].1)
    } else {
        assoc_of(es.drop_first(), k)
    }
}

/// If the first entry with key `es[i].0` stands at `i`, a lookup of that key
/// yields `es[i].1`.
pub proof fn lemma_assoc_first_match<K, V>(es: Seq<(K, V)>, i: int)
    requires
        0 <= i < es.len(),
        forall|j: int| 0 <= j < i ==> es[j].0 != es[i].0,
    ensures
        assoc_of(es, es[i].0) == Some(es[i].1),
    decreases i,
{
    if i > 0 {
        let tail = es.drop_first();
        assert(forall|j: int| 0 <= j < i - 1 ==> tail[j] == es[j + 1]);
        lemma_assoc_first_match(tail, i - 1);
    }
}

/// A key that no entry carries is not found.
pub proof fn lemma_assoc_none<K, V>(es: Seq<(K, V)>, k: K)
    requires
        forall|j: int| 0 <= j < es.len() ==> es[j].0 != k,
    ensures
        assoc_of(es, k) == None::<V>,
    decreases es.len(),
{
    if es.len() > 0 {
        let tail = es.drop_first();
        assert(forall|j: int| 0 <= j < tail.len() ==> tail[j] == es[j + 1]);
        lemma_assoc_none(tail, k);
    }
}

/// Replacing the entry at `i` leaves lookups of every other key unchanged.
pub proof fn lemma_assoc_update_other<K, V>(es: Seq<(K, V)>, i: int, kv: (K, V), t: K)
    requires
        0 <= i < es.len(),
        t != kv.0,
        t != es[i].0,
    ensures
        assoc_of(es.update(i, kv), t) == assoc_of(es, t),
    decreases i,
{
    let es2 = es.update(i, kv);
    if i == 0 {
        assert(es2.drop_first() =~= es.drop_first());
    } else {
        if es[0].0 != t {
            assert(es2.drop_first() =~= es.drop_first().update(i - 1, kv));
            lemma_assoc_update_other(es.drop_first(), i - 1, kv, t);
        } else {
            assert(es2[0] == es[0]);
        }
    }
}

/// Appending an entry leaves lookups of every other key unchanged.
pub proof fn lemma_assoc_push_other<K, V>(es: Seq<(K, V)>, kv: (K, V), t: K)
    requires
        t != kv.0,
    ensures
        assoc_of(es.push(kv), t) == assoc_of(es, t),
    decreases es.len(),
{
    let es2 = es.push(kv);
    if es.len() == 0 {
        assert(es2.drop_first() =~= Seq::<(K, V)>::empty());
    } else {
        assert(es2.drop_first() =~= es.drop_first().push(kv));
        lemma_assoc_push_other(es.drop_first(), kv, t);
    }
}

/// Appending an entry whose key was absent makes that key found with its value.
pub proof fn lemma_assoc_push_new<K, V>(es: Seq<(K, V)>, kv: (K, V))
    requires
        assoc_of(es, kv.0) == None::<V>,
    ensures
        assoc_of(es.push(kv), kv.0) == Some(kv.1),
    decreases es.len(),
{
    let es2 = es.push(kv);
    if es.len() == 0 {
        assert(es2[0] == kv);
    } else {
        assert(es2[0] == es[0]);
        assert(es2.drop_first() =~= es.drop_first().push(kv));
        lemma_assoc_push_new(es.drop_first(), kv);
    }
}

} // verus!
