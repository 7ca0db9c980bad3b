//! Lists of entries looked up by a key, where the first entry for a key is the one that counts:
//! the model of the maps keyed by a label or a text (prepared messages, cooldowns) and of a
//! guild's roles by id.
use vstd::prelude::*;

verus! {

/// Some entry of `s` has key `k`.
pub open spec fn has_key<A, K>(s: Seq<A>, key: spec_fn(A) -> K, k: K) -> bool {
    exists|i: int| 0 <= i < s.len() && key(#[trigger] s[i]) == k
}

/// `i` is the position of the first entry of `s` with key `k`.
pub open spec fn is_first_key<A, K>(s: Seq<A>, key: spec_fn(A) -> K, k: K, i: int) -> bool {
    &&& 0 <= i < s.len()
    &&& key(s[i]) == k
    &&& forall|j: int| 0 <= j < i ==> key(#[trigger] s[j]) != k
}

/// The position of the first entry of `s` with key `k` (meaningful where `has_key(s, key, k)`).
pub open spec fn first_key<A, K>(s: Seq<A>, key: spec_fn(A) -> K, k: K) -> int {
    choose|i: int| is_first_key(s, key, k, i)
}

/// The map that the entries stand for: each key to its first entry.
pub open spec fn keyed_view<A, K>(s: Seq<A>, key: spec_fn(A) -> K) -> Map<K, A> {
    Map::new(|k: K| has_key(s, key, k), |k: K| s[first_key(s, key, k)])
}

proof fn lemma_first_key_exists<A, K>(s: Seq<A>, key: spec_fn(A) -> K, k: K, i: int)
    requires
        0 <= i < s.len(),
        key(s[i]) == k,
    ensures
        exists|m: int| is_first_key(s, key, k, m),
    decreases i,
{
    if exists|j: int| 0 <= j < i && key(#[trigger] s[j]) == k {
        let j: int = choose|j: int| 0 <= j < i && key(#[trigger] s[j]) == k;
        lemma_first_key_exists(s, key, k, j);
    } else {
        assert(is_first_key(s, key, k, i));
    }
}

/// Where some entry has key `k`, `first_key` is the first such position.
pub proof fn lemma_first_key<A, K>(s: Seq<A>, key: spec_fn(A) -> K, k: K)
    requires
        has_key(s, key, k),
    ensures
        is_first_key(s, key, k, first_key(s, key, k)),
{
    let i: int = choose|i: int| 0 <= i < s.len() && key(#[trigger] s[i]) == k;
    lemma_first_key_exists(s, key, k, i);
}

/// The first position of a key is unique.
pub proof fn lemma_first_key_unique<A, K>(s: Seq<A>, key: spec_fn(A) -> K, k: K, i: int)
    requires
        is_first_key(s, key, k, i),
    ensures
        has_key(s, key, k),
        first_key(s, key, k) == i,
{
    assert(key(s[i]) == k);
    lemma_first_key(s, key, k);
    let f: int = first_key(s, key, k);
    if f < i {
        assert(key(s[f]) != k);
    } else if f > i {
        assert(key(s[i]) != k);
    }
}

/// Replacing the first entry for a key is inserting into the map.
pub proof fn lemma_view_update<A, K>(s: Seq<A>, key: spec_fn(A) -> K, i: int, x: A)
    requires
        is_first_key(s, key, key(x), i),
    ensures
        keyed_view(s.update(i, x), key) == keyed_view(s, key).insert(key(x), x),
{
    let r = s.update(i, x);
    let k = key(x);
    assert forall|k2: K| #[trigger] has_key(r, key, k2) == has_key(s, key, k2) by {
        if has_key(s, key, k2) {
            let j: int = choose|j: int| 0 <= j < s.len() && key(#[trigger] s[j]) == k2;
            if j == i {
                assert(key(r[i]) == k2);
            } else {
                assert(key(r[j]) == k2);
            }
        }
        if has_key(r, key, k2) {
            let j: int = choose|j: int| 0 <= j < r.len() && key(#[trigger] r[j]) == k2;
            if j == i {
                assert(key(s[i]) == k2);
            } else {
                assert(key(s[j]) == k2);
            }
        }
    }
    assert forall|j: int| 0 <= j < i implies key(#[trigger] r[j]) != k by {
        assert(r[j] == s[j]);
    }
    lemma_first_key_unique(r, key, k, i);
    assert forall|k2: K| #[trigger] keyed_view(r, key).dom().contains(k2) implies
        keyed_view(r, key)[k2] == keyed_view(s, key).insert(k, x)[k2] by {
        if k2 != k {
            lemma_first_key(s, key, k2);
            let f: int = first_key(s, key, k2);
            assert(f != i);
            assert forall|j: int| 0 <= j < f implies key(#[trigger] r[j]) != k2 by {
                if j != i {
                    assert(r[j] == s[j]);
                }
            }
            assert(r[f] == s[f]);
            lemma_first_key_unique(r, key, k2, f);
        }
    }
    assert(keyed_view(r, key).dom() =~= keyed_view(s, key).insert(k, x).dom());
    assert(keyed_view(r, key) =~= keyed_view(s, key).insert(k, x));
}

/// Appending an entry for a key that has none is inserting into the map.
pub proof fn lemma_view_push<A, K>(s: Seq<A>, key: spec_fn(A) -> K, x: A)
    requires
        !has_key(s, key, key(x)),
    ensures
        keyed_view(s.push(x), key) == keyed_view(s, key).insert(key(x), x),
{
    let r = s.push(x);
    let k = key(x);
    assert forall|k2: K| k2 != k implies #[trigger] has_key(r, key, k2) == has_key(s, key, k2) by {
        if has_key(s, key, k2) {
            let j: int = choose|j: int| 0 <= j < s.len() && key(#[trigger] s[j]) == k2;
            assert(key(r[j]) == k2);
        }
        if has_key(r, key, k2) {
            let j: int = choose|j: int| 0 <= j < r.len() && key(#[trigger] r[j]) == k2;
            assert(j != s.len());
            assert(key(s[j]) == k2);
        }
    }
    assert forall|j: int| 0 <= j < s.len() implies key(#[trigger] r[j]) != k by {
        assert(r[j] == s[j]);
    }
    lemma_first_key_unique(r, key, k, s.len() as int);
    assert forall|k2: K| #[trigger] keyed_view(r, key).dom().contains(k2) implies
        keyed_view(r, key)[k2] == keyed_view(s, key).insert(k, x)[k2] by {
        if k2 != k {
            lemma_first_key(s, key, k2);
            let f: int = first_key(s, key, k2);
            assert forall|j: int| 0 <= j < f implies key(#[trigger] r[j]) != k2 by {
                assert(r[j] == s[j]);
            }
            assert(r[f] == s[f]);
            lemma_first_key_unique(r, key, k2, f);
        }
    }
    assert(keyed_view(r, key).dom() =~= keyed_view(s, key).insert(k, x).dom());
    assert(keyed_view(r, key) =~= keyed_view(s, key).insert(k, x));
}

/// No entries, no keys.
pub proof fn lemma_view_empty<A, K>(key: spec_fn(A) -> K)
    ensures
        keyed_view(Seq::<A>::empty(), key) == Map::<K, A>::empty(),
{
    assert(keyed_view(Seq::<A>::empty(), key) =~= Map::<K, A>::empty());
}

} // verus!
