//! The abstract capability for talking to a remote node.
//!
//! The engine never opens a connection itself: it asks a [`Client`] to do
//! so, one client per addressed peer. The transport layer implements this
//! trait; test doubles may implement it too. Nothing is assumed of a
//! remote answer beyond its type: every caller in the engine states what it
//! does with each possible answer.

use vstd::prelude::*;
use crate::address::{NetworkAddress, spec_address_text};
use crate::node::Node;

verus! {

/// A connection capability for one remote node.
pub trait Client: Sized {
    /// Make a client for the node reachable at `addr`.
    fn init(addr: NetworkAddress) -> Self;

    /// Ask the remote node for the successor of `id`.
    fn find_successor(&self, id: u64) -> Result<Node, ClientError>;

    /// Ask the remote node for its successor.
    fn successor(&self) -> Result<Node, ClientError>;

    /// Ask the remote node for its predecessor.
    fn predecessor(&self) -> Result<Option<Node>, ClientError>;

    /// Tell the remote node that `predecessor` might be its new predecessor.
    fn notify(&self, predecessor: Node) -> Result<(), ClientError>;

    /// Check that the remote node is alive.
    fn ping(&self) -> Result<(), ClientError>;
}

/// Why a remote call failed. `ConnectionFailed` distinctly signals an
/// unreachable peer; any other failure is `Unexpected` and is treated as
/// transient.
#[derive(Debug)]
pub enum ClientError {
    ConnectionFailed(Node),
    Unexpected(String),
}

/// The human-readable description of a client failure.
pub open spec fn spec_client_error_text(e: ClientError) -> Seq<char> {
    match e {
        ClientError::ConnectionFailed(node) => "Connection to node "@ + spec_address_text(node.addr)
            + " failed"@,
        ClientError::Unexpected(message) => message@,
    }
}

impl ClientError {
    /// The human-readable description of the failure.
    pub fn message(&self) -> (r: String)
        ensures
            r@ == spec_client_error_text(*self),
    {
        match self {
            ClientError::ConnectionFailed(node) => {
                let mut s = String::from_str("Connection to node ");
                let text = node.addr.to_text();
                s.append(text.as_str());
                s.append(" failed");
                s
            },
            ClientError::Unexpected(message) => message.clone(),
        }
    }
}

} // verus!
