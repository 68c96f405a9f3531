//! Small tables: vectors of key/value pairs that are read and edited as the
//! association lists of [`crate::assoc`].

use crate::assoc;
use crate::protocol::jsonrpc::Id;
use vstd::prelude::*;

verus! {

/// What a table can be keyed by: a type whose values can be compared.
pub trait Key: DeepView + Sized {
    fn same_key(&self, other: &Self) -> (same: bool)
        ensures
            same == (self.deep_view() == other.deep_view()),
    ;
}

impl Key for String {
    fn same_key(&self, other: &Self) -> (same: bool) {
        *self == *other
    }
}

impl Key for u64 {
    fn same_key(&self, other: &Self) -> (same: bool) {
        *self == *other
    }
}

impl Key for Id {
    fn same_key(&self, other: &Self) -> (same: bool) {
        self.same(other)
    }
}

/// Where `key` stands, or the number of pairs.
pub fn find<K: Key, V: DeepView>(table: &Vec<(K, V)>, key: &K) -> (at: usize)
    ensures
        at == assoc::index_of(table.deep_view(), key.deep_view()),
        at <= table@.len(),
        table.deep_view().len() == table@.len(),
{
    let mut at: usize = 0;
    while at < table.len()
        invariant
            at <= table@.len(),
            forall|j: int| 0 <= j < at ==> (#[trigger] table@[j]).0.deep_view() != key.deep_view(),
        decreases table@.len() - at,
    {
        if table[at].0.same_key(key) {
            proof {
                assoc::lemma_index_is(table.deep_view(), key.deep_view(), at as int);
            }
            return at;
        }
        at += 1;
    }
    proof {
        assoc::lemma_index_is(table.deep_view(), key.deep_view(), at as int);
    }
    at
}

/// The value under `key`.
pub fn get<'a, K: Key, V: DeepView>(table: &'a Vec<(K, V)>, key: &K) -> (value: Option<&'a V>)
    ensures
        value.deep_view() == assoc::lookup(table.deep_view(), key.deep_view()),
{
    let at: usize = find(table, key);
    if at < table.len() {
        Some(&table[at].1)
    } else {
        None
    }
}

/// Whether there is a value under `key`.
pub fn contains<K: Key, V: DeepView>(table: &Vec<(K, V)>, key: &K) -> (found: bool)
    ensures
        found == assoc::holds(table.deep_view(), key.deep_view()),
{
    find(table, key) < table.len()
}

/// Stores `value` under `key`.
pub fn put<K: Key, V: DeepView>(table: &mut Vec<(K, V)>, key: K, value: V)
    ensures
        final(table).deep_view() == assoc::store(
            old(table).deep_view(),
            key.deep_view(),
            value.deep_view(),
        ),
{
    let at: usize = find(table, &key);
    if at < table.len() {
        table.set(at, (key, value));
    } else {
        table.push((key, value));
    }
    assert(table.deep_view() =~= assoc::store(
        old(table).deep_view(),
        key.deep_view(),
        value.deep_view(),
    ));
}

/// Takes out what stands under `key`.
pub fn take<K: Key, V: DeepView>(table: &mut Vec<(K, V)>, key: &K) -> (value: Option<V>)
    ensures
        value.deep_view() == assoc::lookup(old(table).deep_view(), key.deep_view()),
        final(table).deep_view() == assoc::erase(old(table).deep_view(), key.deep_view()),
{
    let at: usize = find(table, key);
    proof {
        assoc::lemma_index_of(table.deep_view(), key.deep_view());
    }
    if at < table.len() {
        let (_, value) = table.remove(at);
        assert(table.deep_view() =~= assoc::erase(old(table).deep_view(), key.deep_view()));
        Some(value)
    } else {
        None
    }
}

} // verus!
