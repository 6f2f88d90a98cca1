//! Sequences keyed by name: the first entry with a name is the one that
//! name finds, and inserting replaces it or appends.

use vstd::prelude::*;

verus! {

/// The index of the first entry of `s` whose key is `k`, or `s.len()` when
/// there is none.
pub open spec fn key_position<T>(s: Seq<T>, k: Seq<char>, key: spec_fn(T) -> Seq<char>) -> int {
    if exists|i: int| 0 <= i < s.len() && key(s[i]) == k && forall|j: int| 0 <= j < i ==> key(s[j]) != k {
        choose|i: int| 0 <= i < s.len() && key(s[i]) == k && forall|j: int| 0 <= j < i ==> key(s[j]) != k
    } else {
        s.len() as int
    }
}

/// The first entry of `s` with key `k`.
pub open spec fn find_key<T>(s: Seq<T>, k: Seq<char>, key: spec_fn(T) -> Seq<char>) -> Option<T> {
    let i = key_position(s, k, key);
    if i < s.len() {
        Some(s[i])
    } else {
        None
    }
}

/// `s` with `x` in place of the first entry with its key, or with `x`
/// appended when there is none.
pub open spec fn upsert<T>(s: Seq<T>, x: T, key: spec_fn(T) -> Seq<char>) -> Seq<T> {
    let i = key_position(s, key(x), key);
    if i < s.len() {
        s.update(i, x)
    } else {
        s.push(x)
    }
}

/// Each of `xs` upserted into `s` in turn.
pub open spec fn upsert_all<T>(s: Seq<T>, xs: Seq<T>, key: spec_fn(T) -> Seq<char>) -> Seq<T>
    decreases xs.len(),
{
    if xs.len() == 0 {
        s
    } else {
        upsert(upsert_all(s, xs.drop_last(), key), xs.last(), key)
    }
}

/// The key position is the index the first-match search finds.
pub proof fn lemma_key_position_found<T>(s: Seq<T>, k: Seq<char>, key: spec_fn(T) -> Seq<char>, i: int)
    requires
        0 <= i < s.len(),
        key(s[i]) == k,
        forall|j: int| 0 <= j < i ==> key(s[j]) != k,
    ensures
        key_position(s, k, key) == i,
{
    let p = key_position(s, k, key);
    assert(0 <= p < s.len() && key(s[p]) == k && forall|j: int| 0 <= j < p ==> key(s[j]) != k);
    if p < i {
        assert(key(s[p]) != k);
    } else if p > i {
        assert(key(s[i]) != k);
    }
}

/// Without an entry of key `k`, the key position is the length.
pub proof fn lemma_key_position_absent<T>(s: Seq<T>, k: Seq<char>, key: spec_fn(T) -> Seq<char>)
    requires
        forall|j: int| 0 <= j < s.len() ==> key(s[j]) != k,
    ensures
        key_position(s, k, key) == s.len(),
{
}

/// The key position lies within `0..=len`, and any earlier entry has
/// another key.
pub proof fn lemma_key_position_bounds<T>(s: Seq<T>, k: Seq<char>, key: spec_fn(T) -> Seq<char>)
    ensures
        0 <= key_position(s, k, key) <= s.len(),
        forall|j: int| 0 <= j < key_position(s, k, key) ==> key(s[j]) != k,
        key_position(s, k, key) < s.len() ==> key(s[key_position(s, k, key)]) == k,
{
    if !(exists|i: int| 0 <= i < s.len() && key(s[i]) == k && forall|j: int| 0 <= j < i ==> key(s[j]) != k) {
        assert forall|j: int| 0 <= j < s.len() implies key(s[j]) != k by {
            if key(s[j]) == k {
                lemma_first_match_exists(s, k, key, j);
            }
        }
    }
}

proof fn lemma_first_match_exists<T>(s: Seq<T>, k: Seq<char>, key: spec_fn(T) -> Seq<char>, i: int)
    requires
        0 <= i < s.len(),
        key(s[i]) == k,
    ensures
        exists|m: int| 0 <= m < s.len() && key(s[m]) == k && forall|j: int| 0 <= j < m ==> key(s[j]) != k,
    decreases i,
{
    if forall|j: int| 0 <= j < i ==> key(s[j]) != k {
    } else {
        let j = choose|j: int| 0 <= j < i && key(s[j]) == k;
        lemma_first_match_exists(s, k, key, j);
    }
}

/// Reading back the key just upserted finds the upserted entry.
pub proof fn lemma_find_after_upsert<T>(s: Seq<T>, x: T, key: spec_fn(T) -> Seq<char>)
    ensures
        find_key(upsert(s, x, key), key(x), key) == Some(x),
{
    let k = key(x);
    lemma_key_position_bounds(s, k, key);
    let i = key_position(s, k, key);
    let t = upsert(s, x, key);
    if i < s.len() {
        assert forall|j: int| 0 <= j < i implies key(t[j]) != k by {
            assert(t[j] == s[j]);
        }
        lemma_key_position_found(t, k, key, i);
    } else {
        assert forall|j: int| 0 <= j < s.len() implies key(t[j]) != k by {
            assert(t[j] == s[j]);
        }
        lemma_key_position_found(t, k, key, s.len() as int);
    }
}

/// Upserting one key leaves what every other key finds unchanged.
pub proof fn lemma_find_other_after_upsert<T>(s: Seq<T>, x: T, key: spec_fn(T) -> Seq<char>, k: Seq<char>)
    requires
        k != key(x),
    ensures
        find_key(upsert(s, x, key), k, key) == find_key(s, k, key),
{
    let t = upsert(s, x, key);
    lemma_key_position_bounds(s, k, key);
    lemma_key_position_bounds(s, key(x), key);
    let p = key_position(s, k, key);
    assert forall|j: int| 0 <= j < s.len() implies key(t[j]) == k <==> key(s[j]) == k by {
        if j == key_position(s, key(x), key) {
        }
    }
    if p < s.len() {
        lemma_key_position_found(t, k, key, p);
        assert(t[p] == s[p]);
    } else {
        assert forall|j: int| 0 <= j < t.len() implies key(t[j]) != k by {
            if j < s.len() {
            } else {
                assert(t[j] == x);
            }
        }
        lemma_key_position_absent(t, k, key);
    }
}

/// After upserting each of `xs`, the key of every one of them finds an
/// entry.
pub proof fn lemma_upsert_all_finds<T>(s: Seq<T>, xs: Seq<T>, key: spec_fn(T) -> Seq<char>, i: int)
    requires
        0 <= i < xs.len(),
    ensures
        find_key(upsert_all(s, xs, key), key(xs[i]), key) is Some,
    decreases xs.len(),
{
    let init = xs.drop_last();
    if i == xs.len() - 1 {
        lemma_find_after_upsert(upsert_all(s, init, key), xs.last(), key);
    } else {
        lemma_upsert_all_finds(s, init, key, i);
        assert(init[i] == xs[i]);
        if key(xs.last()) == key(xs[i]) {
            lemma_find_after_upsert(upsert_all(s, init, key), xs.last(), key);
        } else {
            lemma_find_other_after_upsert(upsert_all(s, init, key), xs.last(), key, key(xs[i]));
        }
    }
}

/// No two entries of `s` share a key.
pub open spec fn distinct_keys<T>(s: Seq<T>, key: spec_fn(T) -> Seq<char>) -> bool {
    forall|a: int, b: int| 0 <= a < s.len() && 0 <= b < s.len() && a != b ==> key(#[trigger] s[a]) != key(#[trigger] s[b])
}

/// Upserting keeps keys distinct.
pub proof fn lemma_upsert_distinct<T>(s: Seq<T>, x: T, key: spec_fn(T) -> Seq<char>)
    requires
        distinct_keys(s, key),
    ensures
        distinct_keys(upsert(s, x, key), key),
{
    lemma_key_position_bounds(s, key(x), key);
    let t = upsert(s, x, key);
    let i = key_position(s, key(x), key);
    assert forall|a: int, b: int| 0 <= a < t.len() && 0 <= b < t.len() && a != b implies key(#[trigger] t[a]) != key(
        #[trigger] t[b],
    ) by {
        if i < s.len() {
            if a == i {
                assert(key(t[a]) == key(s[i]));
            } else if b == i {
                assert(key(t[b]) == key(s[i]));
            }
        }
    }
}

/// Upserting every entry of `xs` into `s`, whose keys are distinct, keeps
/// them distinct.
pub proof fn lemma_upsert_all_distinct<T>(s: Seq<T>, xs: Seq<T>, key: spec_fn(T) -> Seq<char>)
    requires
        distinct_keys(s, key),
    ensures
        distinct_keys(upsert_all(s, xs, key), key),
    decreases xs.len(),
{
    if xs.len() > 0 {
        lemma_upsert_all_distinct(s, xs.drop_last(), key);
        lemma_upsert_distinct(upsert_all(s, xs.drop_last(), key), xs.last(), key);
    }
}

} // verus!
