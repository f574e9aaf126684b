//! Model of the host's persistent flag store: single-bit flags keyed by
//! numeric identifiers, save-persisted by the host. A bit that was never
//! written reads as unset.

use std::collections::HashMap;
use vstd::prelude::*;

verus! {

broadcast use vstd::std_specs::hash::group_hash_axioms;

/// A store of single-bit flags keyed by numeric identifiers.
pub struct FlagStore {
    pub bits: HashMap<u32, bool>,
}

impl FlagStore {
    /// The value of bit `id`: unset unless written.
    pub open spec fn bit(&self, id: u32) -> bool {
        self.bits@.contains_key(id) && self.bits@[id]
    }

    /// An empty store: every bit unset.
    pub fn new() -> (r: FlagStore)
        ensures
            forall|id: u32| !r.bit(id),
    {
        FlagStore { bits: HashMap::new() }
    }

    /// Reads bit `id`.
    pub fn get(&self, id: u32) -> (r: bool)
        ensures
            r == self.bit(id),
    {
        match self.bits.get(&id) {
            Some(b) => *b,
            None => false,
        }
    }

    /// Writes bit `id`, leaving every other bit as it was.
    pub fn set(&mut self, id: u32, v: bool)
        ensures
            final(self).bit(id) == v,
            forall|other: u32| other != id ==> final(self).bit(other) == old(self).bit(other),
    {
        self.bits.insert(id, v);
    }
}

} // verus!
