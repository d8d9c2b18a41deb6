//! A key-unique table demonstrating that indexing by key is sugar over an
//! explicit lookup accessor. A present key's lookup returns the value that
//! was last inserted under it; indexing an absent key is ruled out, as the
//! underlying lookup would fail fatally on it, and `get` reports absence
//! instead.

use vstd::prelude::*;
use std::collections::HashMap;

verus! {

broadcast use vstd::std_specs::hash::group_hash_axioms;

/// A mapping from integer keys to values, viewed as the mathematical map of
/// its entries.
pub struct Table<V> {
    entries: HashMap<u64, V>,
}

impl<V> View for Table<V> {
    type V = Map<u64, V>;

    closed spec fn view(&self) -> Map<u64, V> {
        self.entries@
    }
}

impl<V> Table<V> {
    /// An empty table.
    pub fn new() -> (t: Table<V>)
        ensures
            t@ == Map::<u64, V>::empty(),
    {
        Table { entries: HashMap::new() }
    }

    /// Puts `value` under `key`, replacing whatever the key held before.
    pub fn insert(&mut self, key: u64, value: V)
        ensures
            final(self)@ == old(self)@.insert(key, value),
    {
        self.entries.insert(key, value);
    }

    /// The explicit accessor that indexing syntax delegates to: the value
    /// under `key`, which must be present — an absent key is a fatal lookup.
    pub fn index(&self, key: u64) -> (v: &V)
        requires
            self@.contains_key(key),
        ensures
            *v == self@[key],
    {
        self.entries.get(&key).unwrap()
    }

    /// The value under `key`, or nothing when the key is absent.
    pub fn get(&self, key: u64) -> (v: Option<&V>)
        ensures
            match v {
                Some(p) => self@.contains_key(key) && *p == self@[key],
                None => !self@.contains_key(key),
            },
    {
        self.entries.get(&key)
    }
}

/// Law: looking a key up returns the value most recently inserted under it,
/// whatever the table held before, and inserting touches no other key.
pub proof fn lemma_insert_lookup<V>(m: Map<u64, V>, key: u64, value: V)
    ensures
        m.insert(key, value).contains_key(key),
        m.insert(key, value)[key] == value,
        forall|k: u64| k != key ==> #[trigger] m.insert(key, value).contains_key(k)
            == m.contains_key(k),
        forall|k: u64| k != key && m.contains_key(k) ==> #[trigger] m.insert(key, value)[k]
            == m[k],
{
}

} // verus!
