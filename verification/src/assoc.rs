//! Association lists: sequences of key/value pairs, read as finite maps that
//! remember the order in which their keys first appeared.

use vstd::prelude::*;

verus! {

/// The first position whose key is `key`, or the length where there is none.
pub open spec fn index_of<K, V>(s: Seq<(K, V)>, key: K) -> int
    decreases s.len(),
{
    if s.len() == 0 || s[0].0 == key {
        0
    } else {
        1 + index_of(s.drop_first(), key)
    }
}

/// Whether some pair has the key `key`.
pub open spec fn holds<K, V>(s: Seq<(K, V)>, key: K) -> bool {
    index_of(s, key) < s.len()
}

/// The value stored under `key`.
pub open spec fn lookup<K, V>(s: Seq<(K, V)>, key: K) -> Option<V> {
    if holds(s, key) {
        Some(s[index_of(s, key)].1)
    } else {
        None
    }
}

/// The list after `value` was stored under `key`: in place where the key is
/// present, at the end where it is not.
pub open spec fn store<K, V>(s: Seq<(K, V)>, key: K, value: V) -> Seq<(K, V)> {
    if holds(s, key) {
        s.update(index_of(s, key), (key, value))
    } else {
        s.push((key, value))
    }
}

/// The list after the pair stored under `key` was taken out.
pub open spec fn erase<K, V>(s: Seq<(K, V)>, key: K) -> Seq<(K, V)> {
    if holds(s, key) {
        s.remove(index_of(s, key))
    } else {
        s
    }
}

/// No key occurs twice.
pub open spec fn distinct<K, V>(s: Seq<(K, V)>) -> bool {
    forall|i: int, j: int| 0 <= i < j < s.len() ==> s[i].0 != s[j].0
}

/// What [`index_of`] finds, in words of positions.
pub proof fn lemma_index_of<K, V>(s: Seq<(K, V)>, key: K)
    ensures
        0 <= index_of(s, key) <= s.len(),
        holds(s, key) ==> s[index_of(s, key)].0 == key,
        forall|j: int| 0 <= j < index_of(s, key) ==> s[j].0 != key,
    decreases s.len(),
{
    if s.len() != 0 && s[0].0 != key {
        let rest = s.drop_first();
        lemma_index_of(rest, key);
        assert forall|j: int| 0 <= j < index_of(s, key) implies s[j].0 != key by {
            if j > 0 {
                assert(rest[j - 1] == s[j]);
            }
        }
    }
}

/// The position that scanning from the front stops at is [`index_of`].
pub proof fn lemma_index_is<K, V>(s: Seq<(K, V)>, key: K, at: int)
    requires
        0 <= at <= s.len(),
        at < s.len() ==> s[at].0 == key,
        forall|j: int| 0 <= j < at ==> s[j].0 != key,
    ensures
        index_of(s, key) == at,
{
    lemma_index_of(s, key);
}

/// A stored value is read back, and no other key is disturbed.
pub proof fn lemma_store<K, V>(s: Seq<(K, V)>, key: K, value: V, other: K)
    ensures
        lookup(store(s, key, value), other) == if other == key {
            Some(value)
        } else {
            lookup(s, other)
        },
        distinct(s) ==> distinct(store(s, key, value)),
{
    let t = store(s, key, value);
    lemma_index_of(s, key);
    lemma_index_of(s, other);
    if other == key {
        lemma_index_is(t, other, index_of(s, key));
    } else if holds(s, other) {
        lemma_index_is(t, other, index_of(s, other));
    } else {
        lemma_index_is(t, other, t.len() as int);
    }
}

/// An erased key is gone, and no other key is disturbed.
pub proof fn lemma_erase<K, V>(s: Seq<(K, V)>, key: K, other: K)
    requires
        distinct(s),
    ensures
        lookup(erase(s, key), other) == if other == key {
            None
        } else {
            lookup(s, other)
        },
        distinct(erase(s, key)),
{
    let t = erase(s, key);
    lemma_index_of(s, key);
    lemma_index_of(s, other);
    if holds(s, key) {
        let at = index_of(s, key);
        assert forall|j: int| 0 <= j < t.len() implies t[j] == if j < at {
            s[j]
        } else {
            s[j + 1]
        } by {}
        if other == key || !holds(s, other) {
            lemma_index_is(t, other, t.len() as int);
        } else if index_of(s, other) < at {
            lemma_index_is(t, other, index_of(s, other));
        } else {
            lemma_index_is(t, other, index_of(s, other) - 1);
        }
    }
}

} // verus!
