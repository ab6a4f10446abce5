//! A table of answers already given, so that a question is computed once.

use std::collections::HashMap;
use vstd::prelude::*;

verus! {

/// The answers given so far, each under the key of its question, and the
/// number of answers that had to be computed.
pub struct Memo<V> {
    entries: HashMap<u32, V>,
    executions: u64,
}

impl<V> Memo<V> {
    /// The answers, as mathematics.
    pub closed spec fn entries(&self) -> Map<u32, V> {
        self.entries@
    }

    /// The number of answers that were computed; it stops at the greatest
    /// number that 64 bits hold.
    pub closed spec fn executions(&self) -> nat {
        self.executions as nat
    }

    /// A table without answers.
    pub fn new() -> (r: Memo<V>)
        ensures
            r.entries() == Map::<u32, V>::empty(),
            r.executions() == 0,
    {
        Memo { entries: HashMap::new(), executions: 0 }
    }

    /// The number of answers that were computed.
    pub fn count(&self) -> (r: u64)
        ensures
            r == self.executions(),
    {
        self.executions
    }

    /// The answer under `key`, where there is one.
    pub fn get(&self, key: u32) -> (r: Option<&V>)
        ensures
            r == (if self.entries().contains_key(key) {
                Some(&self.entries()[key])
            } else {
                None
            }),
    {
        broadcast use vstd::std_specs::hash::group_hash_axioms;

        self.entries.get(&key)
    }

    /// Puts `value`, which was just computed, under `key`.
    pub fn put(&mut self, key: u32, value: V)
        ensures
            final(self).entries() == old(self).entries().insert(key, value),
            final(self).executions() == if old(self).executions() < u64::MAX {
                old(self).executions() + 1
            } else {
                old(self).executions()
            },
    {
        broadcast use vstd::std_specs::hash::group_hash_axioms;

        self.entries.insert(key, value);
        if self.executions < u64::MAX {
            self.executions = self.executions + 1;
        }
    }
}

} // verus!
