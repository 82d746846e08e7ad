//! A reference to a node in the chord ring.

use vstd::prelude::*;
use vstd::utf8::encode_utf8;
use crate::address::{NetworkAddress, spec_address_text};
use crate::client::Client;
use crate::ring::spec_between;

verus! {

/// What `seahash::hash` returns for a byte string. The hash is a pure
/// function of the bytes alone — its seed is prechosen and the crate
/// documents the value as stable and portable — so the result can be given
/// a name; nothing further is assumed of it.
pub uninterp spec fn seahash_of(bytes: Seq<u8>) -> u64;

/// Relies on seahash::hash: a non-cryptographic 64-bit hash, a function of
/// the buffer alone, stable across processes and machines.
pub assume_specification[ seahash::hash ](buf: &[u8]) -> (r: u64)
    ensures
        r == seahash_of(buf@),
;

/// The ring identifier derived from an endpoint: the hash of the UTF-8
/// bytes of the endpoint's canonical textual form.
pub open spec fn spec_node_id(addr: NetworkAddress) -> u64 {
    seahash_of(encode_utf8(spec_address_text(addr)))
}

/// A handle to a node in the chord ring: its identifier on the ring and the
/// endpoint it can be reached at. Handles are value objects: cheap to copy
/// and freely shareable. Two handles are equal iff their identifiers are
/// equal; the endpoint is a transport detail and takes no part in identity.
#[derive(Clone, Copy, Debug)]
pub struct Node {
    pub id: u64,
    pub addr: NetworkAddress,
}

impl PartialEq for Node {
    fn eq(&self, other: &Node) -> (r: bool) {
        self.id == other.id
    }
}

impl vstd::std_specs::cmp::PartialEqSpecImpl for Node {
    open spec fn obeys_eq_spec() -> bool {
        true
    }

    open spec fn eq_spec(&self, other: &Node) -> bool {
        self.id == other.id
    }
}

impl Node {
    /// A handle for the node at `addr`, with its identifier derived from
    /// the endpoint's textual form by the fixed hash.
    pub fn new(addr: NetworkAddress) -> (r: Self)
        ensures
            r == (Node { id: spec_node_id(addr), addr }),
    {
        let text = addr.to_text();
        let id = seahash::hash(text.as_str().as_bytes());
        Node { id, addr }
    }

    /// A handle with an explicitly chosen identifier. Receivers of a handle
    /// treat the carried identifier as authoritative and never re-derive it
    /// from the endpoint.
    pub fn with_id(id: u64, addr: NetworkAddress) -> (r: Self)
        ensures
            r == (Node { id, addr }),
    {
        Node { id, addr }
    }

    /// The node's identifier on the ring.
    pub fn id(&self) -> (r: u64)
        ensures
            r == self.id,
    {
        self.id
    }

    /// A client connected to this node's endpoint. What the client answers
    /// is up to its implementation; nothing is promised of it here.
    pub fn client<C: Client>(&self) -> C {
        C::init(self.addr)
    }

    /// The node's network endpoint.
    pub fn addr(&self) -> (r: NetworkAddress)
        ensures
            r == self.addr,
    {
        self.addr
    }

    /// Returns true if the given id lies in the clockwise arc `(node1, node2]`
    /// of the identifier ring: strictly after `node1`, at or before `node2`,
    /// wrapping around zero when `node1 >= node2`.
    pub fn is_between_on_ring(id: u64, node1: u64, node2: u64) -> (r: bool)
        ensures
            r == spec_between(id, node1, node2),
    {
        if node1 < node2 {
            node1 < id && id <= node2
        } else {
            node1 < id || id <= node2
        }
    }
}

} // verus!
