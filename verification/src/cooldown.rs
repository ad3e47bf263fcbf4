//! Process-wide record of the last time each cooldown scope fired.
//!
//! A `CooldownStore` maps a scope key (a caller identifier or a shared
//! group identifier such as a guild) to the timestamp, in seconds, of
//! the last permitted fire in that scope.  A key holds at most one
//! timestamp at a time; entries never expire on their own.

use vstd::prelude::*;
use std::collections::HashMap;

verus! {

broadcast use vstd::std_specs::hash::group_hash_axioms;

/// Last-fire table, keyed by cooldown scope.
#[derive(Debug)]
pub struct CooldownStore {
    table: HashMap<u64, u64>,
}

impl View for CooldownStore {
    type V = Map<u64, u64>;

    closed spec fn view(&self) -> Map<u64, u64> {
        self.table@
    }
}

impl CooldownStore {
    /// A fresh store with no record of any fire.
    pub fn new() -> (s: Self)
        ensures
            s@ == Map::<u64, u64>::empty(),
    {
        CooldownStore { table: HashMap::new() }
    }

    /// The last-fire timestamp recorded for `scope_key`, if any.
    pub fn get_last_fire(&self, scope_key: u64) -> (r: Option<u64>)
        ensures
            r == if self@.contains_key(scope_key) {
                Some(self@[scope_key])
            } else {
                None::<u64>
            },
    {
        match self.table.get(&scope_key) {
            Some(t) => Some(*t),
            None => None,
        }
    }

    /// Record `now` as the last fire for `scope_key`, replacing any
    /// earlier record for that key.
    pub fn set_last_fire(&mut self, scope_key: u64, now: u64)
        ensures
            final(self)@ == old(self)@.insert(scope_key, now),
    {
        self.table.insert(scope_key, now);
    }
}

} // verus!
