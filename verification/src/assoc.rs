//! Association sequences: the common model behind every keyed collection in
//! this crate.
//!
//! A collection with string keys is modelled as a `Seq` of `(key, value)`
//! pairs in which no key occurs twice.  Insertion is last-write-wins: an
//! existing key keeps its position and gets the new value, a new key is
//! appended.  The spec functions here define lookup, insertion and removal on
//! that model; the proof functions state the facts that callers need about
//! them.

use vstd::prelude::*;

verus! {

/// The first index whose key is `k`, or `-1` when no pair has key `k`.
pub open spec fn find_key<V>(s: Seq<(Seq<char>, V)>, k: Seq<char>) -> int
    decreases s.len(),
{
    if s.len() == 0 {
        -1
    } else if s.first().0 == k {
        0
    } else {
        let r = find_key(s.drop_first(), k);
        if r == -1 {
            -1
        } else {
            r + 1
        }
    }
}

/// Whether some pair has key `k`.
pub open spec fn has_key<V>(s: Seq<(Seq<char>, V)>, k: Seq<char>) -> bool {
    find_key(s, k) >= 0
}

/// The value stored under `k`, if any.
pub open spec fn assoc_get<V>(s: Seq<(Seq<char>, V)>, k: Seq<char>) -> Option<V> {
    if has_key(s, k) {
        Some(s[find_key(s, k)].1)
    } else {
        None
    }
}

/// Last-write-wins insertion: replace in place when `k` is present,
/// append otherwise.
pub open spec fn assoc_insert<V>(s: Seq<(Seq<char>, V)>, k: Seq<char>, v: V) -> Seq<
    (Seq<char>, V),
> {
    if has_key(s, k) {
        s.update(find_key(s, k), (k, v))
    } else {
        s.push((k, v))
    }
}

/// Removal: drop the pair with key `k` when present, else leave `s` alone.
pub open spec fn assoc_remove<V>(s: Seq<(Seq<char>, V)>, k: Seq<char>) -> Seq<(Seq<char>, V)> {
    if has_key(s, k) {
        s.remove(find_key(s, k))
    } else {
        s
    }
}

/// No two pairs share a key.
pub open spec fn unique_keys<V>(s: Seq<(Seq<char>, V)>) -> bool {
    forall|i: int, j: int| 0 <= i < j < s.len() ==> s[i].0 != s[j].0
}

/// `find_key` returns either `-1` or the index of the first pair with key
/// `k`.
pub proof fn lemma_find_key_props<V>(s: Seq<(Seq<char>, V)>, k: Seq<char>)
    ensures
        -1 <= find_key(s, k) < s.len(),
        find_key(s, k) >= 0 ==> s[find_key(s, k)].0 == k,
        forall|j: int| 0 <= j < find_key(s, k) ==> s[j].0 != k,
        find_key(s, k) == -1 ==> forall|i: int| 0 <= i < s.len() ==> s[i].0 != k,
    decreases s.len(),
{
    if s.len() != 0 && s.first().0 != k {
        let d = s.drop_first();
        lemma_find_key_props(d, k);
        let r = find_key(d, k);
        if r == -1 {
            assert forall|i: int| 0 <= i < s.len() implies s[i].0 != k by {
                if i > 0 {
                    assert(d[i - 1] == s[i]);
                }
            }
        } else {
            assert(s[r + 1] == d[r]);
            assert forall|j: int| 0 <= j < find_key(s, k) implies s[j].0 != k by {
                if j > 0 {
                    assert(d[j - 1] == s[j]);
                }
            }
        }
    }
}

/// `find_key` finds exactly the first matching index.
pub proof fn lemma_find_key_is_first<V>(s: Seq<(Seq<char>, V)>, k: Seq<char>, i: int)
    requires
        0 <= i < s.len(),
        s[i].0 == k,
        forall|j: int| 0 <= j < i ==> s[j].0 != k,
    ensures
        find_key(s, k) == i,
    decreases s.len(),
{
    if s.first().0 != k {
        assert(forall|j: int| 0 <= j < s.drop_first().len() ==> s.drop_first()[j] == s[j + 1]);
        lemma_find_key_is_first(s.drop_first(), k, i - 1);
    }
}

/// When no pair matches, `find_key` reports `-1`.
pub proof fn lemma_find_key_absent<V>(s: Seq<(Seq<char>, V)>, k: Seq<char>)
    requires
        forall|i: int| 0 <= i < s.len() ==> s[i].0 != k,
    ensures
        find_key(s, k) == -1,
{
    lemma_find_key_props(s, k);
    if find_key(s, k) >= 0 {
        assert(s[find_key(s, k)].0 == k);
    }
}

/// Insertion keeps keys unique and stores exactly the inserted value under
/// the inserted key, leaving every other key's value alone.
pub proof fn lemma_assoc_insert<V>(s: Seq<(Seq<char>, V)>, k: Seq<char>, v: V)
    requires
        unique_keys(s),
    ensures
        unique_keys(assoc_insert(s, k, v)),
        assoc_get(assoc_insert(s, k, v), k) == Some(v),
        forall|k2: Seq<char>| k2 != k ==> assoc_get(assoc_insert(s, k, v), k2) == assoc_get(s, k2),
        has_key(assoc_insert(s, k, v), k),
        forall|k2: Seq<char>| k2 != k ==> has_key(assoc_insert(s, k, v), k2) == has_key(s, k2),
{
    lemma_find_key_props(s, k);
    let t = assoc_insert(s, k, v);
    if has_key(s, k) {
        let f = find_key(s, k);
        assert(unique_keys(t)) by {
            assert(forall|i: int, j: int|
                0 <= i < j < t.len() && i != f && j != f ==> t[i].0 == s[i].0 && t[j].0 == s[j].0);
        }
        lemma_find_key_is_first(t, k, f);
        assert(t[f].1 == v);
        assert forall|k2: Seq<char>| k2 != k implies assoc_get(t, k2) == assoc_get(s, k2)
            && has_key(t, k2) == has_key(s, k2) by {
            lemma_find_key_props(s, k2);
            lemma_find_key_props(t, k2);
            let f2 = find_key(s, k2);
            if f2 >= 0 {
                assert(f2 != f);
                assert(t[f2].0 == k2);
                assert(forall|j: int| 0 <= j < f2 ==> t[j].0 != k2);
                lemma_find_key_is_first(t, k2, f2);
            } else {
                assert(forall|i: int| 0 <= i < t.len() ==> t[i].0 != k2);
                lemma_find_key_absent(t, k2);
            }
        }
    } else {
        assert(forall|i: int| 0 <= i < s.len() ==> s[i].0 != k);
        assert(unique_keys(t)) by {
            assert(forall|i: int| 0 <= i < s.len() ==> t[i] == s[i] && t[i].0 != k);
        }
        lemma_find_key_is_first(t, k, s.len() as int);
        assert(t[s.len() as int].1 == v);
        assert forall|k2: Seq<char>| k2 != k implies assoc_get(t, k2) == assoc_get(s, k2)
            && has_key(t, k2) == has_key(s, k2) by {
            lemma_find_key_props(s, k2);
            lemma_find_key_props(t, k2);
            let f2 = find_key(s, k2);
            if f2 >= 0 {
                assert(t[f2].0 == k2);
                assert(forall|j: int| 0 <= j < f2 ==> t[j].0 != k2);
                lemma_find_key_is_first(t, k2, f2);
            } else {
                assert(forall|i: int| 0 <= i < t.len() ==> t[i].0 != k2);
                lemma_find_key_absent(t, k2);
            }
        }
    }
}

/// Removal keeps keys unique, erases the removed key and leaves every other
/// key's value alone.
pub proof fn lemma_assoc_remove<V>(s: Seq<(Seq<char>, V)>, k: Seq<char>)
    requires
        unique_keys(s),
    ensures
        unique_keys(assoc_remove(s, k)),
        assoc_get(assoc_remove(s, k), k) is None,
        forall|k2: Seq<char>| k2 != k ==> assoc_get(assoc_remove(s, k), k2) == assoc_get(s, k2),
        !has_key(assoc_remove(s, k), k),
{
    lemma_find_key_props(s, k);
    let t = assoc_remove(s, k);
    if has_key(s, k) {
        let f = find_key(s, k);
        assert(forall|i: int| 0 <= i < f ==> t[i] == s[i]);
        assert(forall|i: int| f <= i < t.len() ==> t[i] == s[i + 1]);
        assert(unique_keys(t));
        assert(forall|i: int| 0 <= i < t.len() ==> t[i].0 != k);
        lemma_find_key_absent(t, k);
        assert forall|k2: Seq<char>| k2 != k implies assoc_get(t, k2) == assoc_get(s, k2) by {
            lemma_find_key_props(s, k2);
            lemma_find_key_props(t, k2);
            let f2 = find_key(s, k2);
            if f2 >= 0 {
                if f2 < f {
                    lemma_find_key_is_first(t, k2, f2);
                } else {
                    assert(f2 != f);
                    assert(t[f2 - 1].0 == k2);
                    assert(forall|j: int| 0 <= j < f2 - 1 ==> t[j].0 != k2);
                    lemma_find_key_is_first(t, k2, f2 - 1);
                    assert(t[f2 - 1].1 == s[f2].1);
                }
            } else {
                assert(forall|i: int| 0 <= i < t.len() ==> t[i].0 != k2);
                lemma_find_key_absent(t, k2);
            }
        }
    } else {
        lemma_find_key_absent(t, k);
    }
}

} // verus!
