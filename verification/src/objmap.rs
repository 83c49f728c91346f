//! A table from type-checker objects to values, as the builder keeps for its
//! bindings and as the driver keeps for its labels.

use vstd::prelude::*;
use std::collections::HashMap;
use crate::keys::TCObjKey;

verus! {

/// A finite map keyed by [`TCObjKey`].
pub struct ObjMap<V> {
    table: HashMap<u64, V>,
}

impl<V> View for ObjMap<V> {
    type V = Map<TCObjKey, V>;

    closed spec fn view(&self) -> Map<TCObjKey, V> {
        Map::new(
            |k: TCObjKey| self.table@.contains_key(k.0),
            |k: TCObjKey| self.table@[k.0],
        )
    }
}

impl<V> ObjMap<V> {
    pub fn new() -> (m: ObjMap<V>)
        ensures
            m@ == Map::<TCObjKey, V>::empty(),
    {
        ObjMap { table: HashMap::new() }
    }

    pub fn contains_key(&self, key: TCObjKey) -> (r: bool)
        ensures
            r == self@.contains_key(key),
    {
        broadcast use vstd::std_specs::hash::group_hash_axioms;

        self.table.contains_key(&key.0)
    }

    pub fn get(&self, key: TCObjKey) -> (r: Option<&V>)
        ensures
            match r {
                Some(v) => self@.contains_key(key) && *v == self@[key],
                None => !self@.contains_key(key),
            },
    {
        broadcast use vstd::std_specs::hash::group_hash_axioms;

        self.table.get(&key.0)
    }

    /// Binds `key` to `value`, and hands back what it was bound to before.
    pub fn insert(&mut self, key: TCObjKey, value: V) -> (before: Option<V>)
        ensures
            final(self)@ == old(self)@.insert(key, value),
            match before {
                Some(v) => old(self)@.contains_key(key) && v == old(self)@[key],
                None => !old(self)@.contains_key(key),
            },
    {
        broadcast use vstd::std_specs::hash::group_hash_axioms;

        self.table.insert(key.0, value)
    }
}

} // verus!
