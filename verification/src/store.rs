//! The keyed mapping abstraction underlying every feature: a store owns all
//! of its records and maps each caller identity to at most one value.
//!
//! The hosting dispatch layer guards each store with one exclusive lock, so
//! every operation here is atomic with respect to the others on the same
//! store; the store itself is a plain owned value.

use vstd::prelude::*;
use std::collections::HashMap;
use crate::UserId;

verus! {

broadcast use vstd::std_specs::hash::group_hash_axioms;

/// A mapping from caller identities to feature-specific records, viewed as a
/// mathematical map from identity to value.
pub struct Store<V> {
    records: HashMap<UserId, V>,
}

impl<V> View for Store<V> {
    type V = Map<UserId, V>;

    closed spec fn view(&self) -> Map<UserId, V> {
        self.records@
    }
}

impl<V> Store<V> {
    /// An empty store; every store starts empty at process start.
    pub fn new() -> (s: Self)
        ensures
            s@ == Map::<UserId, V>::empty(),
    {
        Store { records: HashMap::new() }
    }

    /// Whether the identity has a record in this store.
    pub fn contains(&self, user: UserId) -> (b: bool)
        ensures
            b == self@.contains_key(user),
    {
        self.records.contains_key(&user)
    }

    /// The identity's record, if one exists.
    pub fn get(&self, user: UserId) -> (r: Option<&V>)
        ensures
            match r {
                Some(v) => self@.contains_key(user) && *v == self@[user],
                None => !self@.contains_key(user),
            },
    {
        self.records.get(&user)
    }

    /// Inserts or replaces the identity's record.
    pub fn upsert(&mut self, user: UserId, value: V)
        ensures
            final(self)@ == old(self)@.insert(user, value),
    {
        self.records.insert(user, value);
    }

    /// Removes and returns the identity's record, if one exists, leaving the
    /// rest of the store untouched.
    pub fn take(&mut self, user: UserId) -> (r: Option<V>)
        ensures
            final(self)@ == old(self)@.remove(user),
            match r {
                Some(v) => old(self)@.contains_key(user) && v == old(self)@[user],
                None => !old(self)@.contains_key(user),
            },
    {
        self.records.remove(&user)
    }

    /// Removes and returns the identity's record, or hands back `fallback`
    /// if it has none: the taking half of a read-modify-write that creates
    /// the record on first use, with `upsert` as the writing half.
    pub fn take_or(&mut self, user: UserId, fallback: V) -> (v: V)
        ensures
            final(self)@ == old(self)@.remove(user),
            v == (if old(self)@.contains_key(user) {
                old(self)@[user]
            } else {
                fallback
            }),
    {
        match self.records.remove(&user) {
            Some(v) => v,
            None => fallback,
        }
    }

    /// How many identities have a record in this store.
    pub fn len(&self) -> (n: usize)
        ensures
            n == self@.len(),
    {
        self.records.len()
    }
}

} // verus!
