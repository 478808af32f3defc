//! The endpoint set: the upstream addresses, in the order in which they are
//! attempted.

use vstd::prelude::*;

verus! {

/// One upstream address and its place in the set.
#[derive(Debug, PartialEq, Eq)]
pub struct Endpoint<'a> {
    pub address: &'a str,
    pub position: usize,
}

/// A fixed, ordered list of upstream addresses.
#[derive(Debug)]
pub struct EndpointSet {
    addresses: Vec<String>,
}

impl View for EndpointSet {
    type V = Seq<Seq<char>>;

    closed spec fn view(&self) -> Seq<Seq<char>> {
        self.addresses@.map_values(|address: String| address@)
    }
}

impl EndpointSet {
    /// The set of the given addresses, attempted in the given order.
    pub fn new(addresses: Vec<String>) -> (set: EndpointSet)
        ensures
            set@ == addresses@.map_values(|address: String| address@),
    {
        EndpointSet { addresses }
    }

    /// The number of endpoints.
    pub fn len(&self) -> (count: usize)
        ensures
            count == self@.len(),
    {
        self.addresses.len()
    }

    /// The endpoint at `position`, if the set has that many.
    pub fn get(&self, position: usize) -> (endpoint: Option<Endpoint<'_>>)
        ensures
            match endpoint {
                Some(endpoint) => {
                    &&& position < self@.len()
                    &&& endpoint.address@ == self@[position as int]
                    &&& endpoint.position == position
                },
                None => position >= self@.len(),
            },
    {
        if position < self.addresses.len() {
            Some(Endpoint { address: self.addresses[position].as_str(), position })
        } else {
            None
        }
    }
}

} // verus!
