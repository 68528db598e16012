//! The capability set that a container under measurement offers, together
//! with its two implementations: the ordered map and the hash map.

use std::collections::BTreeMap;
use std::collections::HashMap;
use vstd::prelude::*;

verus! {

/// What a lookup of `key` in `entries` reports: the stored value, or absence.
pub open spec fn lookup(entries: Map<i64, i64>, key: i64) -> Option<i64> {
    if entries.contains_key(key) {
        Some(entries[key])
    } else {
        None
    }
}

/// A map from 64-bit keys to 64-bit values, seen through the four operations
/// that the runners need. Every operation is stated over `entries`, the
/// mathematical map that the container currently holds.
pub trait Container {
    /// The key/value pairs that the container holds.
    spec fn entries(&self) -> Map<i64, i64>;

    /// A container holds finitely many keys.
    proof fn entries_finite(&self)
        ensures
            self.entries().dom().finite(),
    ;

    /// The number of keys held.
    fn len(&self) -> (n: usize)
        ensures
            n == self.entries().len(),
    ;

    /// Binds `key` to `value` and hands back what `key` was bound to before.
    fn insert(&mut self, key: i64, value: i64) -> (previous: Option<i64>)
        ensures
            final(self).entries() == old(self).entries().insert(key, value),
            previous == lookup(old(self).entries(), key),
    ;

    /// The value that `key` is bound to, if any.
    fn get(&self, key: &i64) -> (found: Option<&i64>)
        ensures
            match found {
                Some(v) => lookup(self.entries(), *key) == Some(*v),
                None => lookup(self.entries(), *key) == None::<i64>,
            },
    ;

    /// Unbinds `key` and hands back what it was bound to.
    fn remove(&mut self, key: &i64) -> (previous: Option<i64>)
        ensures
            final(self).entries() == old(self).entries().remove(*key),
            previous == lookup(old(self).entries(), *key),
    ;
}

impl Container for BTreeMap<i64, i64> {
    open spec fn entries(&self) -> Map<i64, i64> {
        self@
    }

    proof fn entries_finite(&self) {
    }

    fn len(&self) -> (n: usize) {
        BTreeMap::len(self)
    }

    fn insert(&mut self, key: i64, value: i64) -> (previous: Option<i64>) {
        BTreeMap::insert(self, key, value)
    }

    fn get(&self, key: &i64) -> (found: Option<&i64>) {
        BTreeMap::get(self, key)
    }

    fn remove(&mut self, key: &i64) -> (previous: Option<i64>) {
        BTreeMap::remove(self, key)
    }
}

impl Container for HashMap<i64, i64> {
    open spec fn entries(&self) -> Map<i64, i64> {
        self@
    }

    proof fn entries_finite(&self) {
    }

    fn len(&self) -> (n: usize) {
        HashMap::len(self)
    }

    fn insert(&mut self, key: i64, value: i64) -> (previous: Option<i64>) {
        HashMap::insert(self, key, value)
    }

    fn get(&self, key: &i64) -> (found: Option<&i64>) {
        HashMap::get(self, key)
    }

    fn remove(&mut self, key: &i64) -> (previous: Option<i64>) {
        HashMap::remove(self, key)
    }
}

} // verus!
