//! Socket endpoints and ordered lists of them.

use vstd::prelude::*;

verus! {

/// A resolved socket endpoint: an internet address and a port.
///
/// The address is held as the big-endian integer that its octets spell, so
/// `10.0.0.1` is `0x0A00_0001`.
#[derive(Clone, Copy, Debug, PartialEq, Eq, Hash, Structural)]
#[allow(inconsistent_fields)]
pub enum Endpoint {
    V4 { bits: u32, port: u16 },
    V6 { bits: u128, port: u16, flowinfo: u32, scope_id: u32 },
}

impl Endpoint {
    /// The port of the endpoint.
    pub open spec fn spec_port(self) -> u16 {
        match self {
            Endpoint::V4 { port, .. } => port,
            Endpoint::V6 { port, .. } => port,
        }
    }

    /// The port of the endpoint.
    #[verifier::when_used_as_spec(spec_port)]
    pub fn port(self) -> (p: u16)
        ensures
            p == self.spec_port(),
    {
        match self {
            Endpoint::V4 { port, .. } => port,
            Endpoint::V6 { port, .. } => port,
        }
    }
}

/// The ordered endpoints that one resolution produced.
#[derive(Debug, PartialEq, Eq)]
pub struct AddressList {
    entries: Vec<Endpoint>,
}

impl View for AddressList {
    type V = Seq<Endpoint>;

    closed spec fn view(&self) -> Seq<Endpoint> {
        self.entries@
    }
}

impl AddressList {
    /// A list holding `entries` in their order.
    pub fn new(entries: Vec<Endpoint>) -> (list: AddressList)
        ensures
            list@ == entries@,
    {
        AddressList { entries }
    }

    /// The number of endpoints.
    pub fn len(&self) -> (n: usize)
        ensures
            n == self@.len(),
    {
        self.entries.len()
    }

    /// The endpoint at position `i`, if the list is that long.
    pub fn get(&self, i: usize) -> (e: Option<Endpoint>)
        ensures
            e == (if i < self@.len() { Some(self@[i as int]) } else { None }),
    {
        if i < self.entries.len() {
            Some(self.entries[i])
        } else {
            None
        }
    }

    /// The endpoints in their order, as a vector.
    pub fn into_vec(self) -> (entries: Vec<Endpoint>)
        ensures
            entries@ == self@,
    {
        self.entries
    }

    /// An independent copy holding the same endpoints in the same order.
    pub fn duplicate(&self) -> (copy: AddressList)
        ensures
            copy@ == self@,
    {
        let mut entries: Vec<Endpoint> = Vec::new();
        let mut i: usize = 0;
        while i < self.entries.len()
            invariant
                i <= self.entries@.len(),
                entries@ == self.entries@.take(i as int),
            decreases self.entries@.len() - i,
        {
            entries.push(self.entries[i]);
            i += 1;
            assert(entries@ =~= self.entries@.take(i as int));
        }
        assert(self.entries@.take(i as int) =~= self.entries@);
        AddressList { entries }
    }
}

impl Clone for AddressList {
    fn clone(&self) -> (copy: AddressList)
        ensures
            copy@ == self@,
    {
        self.duplicate()
    }
}

} // verus!
