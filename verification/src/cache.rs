//! The single-slot store of the most recent successful resolution.

use vstd::prelude::*;
use crate::address::{AddressList, Endpoint};

verus! {

/// Holds nothing, or the address list of the last successful resolution.
///
/// There is one slot, not one per name, and nothing ever empties it: the
/// only write is `set`, which replaces the whole content. Writing takes the
/// cache exclusively, so no reader sees a list that is partly written; to
/// share a cache between threads, put it behind a lock.
#[derive(Debug)]
pub struct ResolutionCache {
    slot: Option<AddressList>,
}

impl View for ResolutionCache {
    type V = Option<Seq<Endpoint>>;

    closed spec fn view(&self) -> Option<Seq<Endpoint>> {
        match self.slot {
            Some(list) => Some(list@),
            None => None,
        }
    }
}

impl ResolutionCache {
    /// An empty cache.
    pub fn new() -> (cache: ResolutionCache)
        ensures
            cache@ is None,
    {
        ResolutionCache { slot: None }
    }

    /// Whether a list is stored.
    pub fn is_populated(&self) -> (b: bool)
        ensures
            b == (self@ is Some),
    {
        self.slot.is_some()
    }

    /// A copy of the stored list, if there is one. The cache is unchanged.
    pub fn get(&self) -> (found: Option<AddressList>)
        ensures
            (found is Some) == (self@ is Some),
            found matches Some(list) ==> self@ == Some(list@),
    {
        match &self.slot {
            Some(list) => Some(list.duplicate()),
            None => None,
        }
    }

    /// Stores `list`, replacing whatever was stored before.
    pub fn set(&mut self, list: AddressList)
        ensures
            final(self)@ == Some(list@),
    {
        self.slot = Some(list);
    }
}

} // verus!
