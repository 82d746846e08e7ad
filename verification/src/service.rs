//! The per-node protocol engine.
//!
//! The service owns the node's ring state and carries out the chord
//! protocol: lookup (`find_successor`), joining a ring (`join`), and the
//! three periodic maintenance duties (`stabilize`, `check_predecessor`,
//! `fix_fingers`). Outbound calls go through the [`Client`] capability;
//! nothing is assumed of a remote answer, so each method states what it
//! does with every answer the remote could give.

use vstd::prelude::*;
use core::marker::PhantomData;
use crate::address::NetworkAddress;
use crate::client::{Client, ClientError, spec_client_error_text};
use crate::finger::{Finger, spec_finger_id};
use crate::node::{Node, spec_node_id};
use crate::ring::{spec_between, spec_between_open};
use crate::store::NodeStore;

verus! {

/// The single service-level error kind: an unexpected failure, wrapping
/// the underlying description with context.
#[derive(Debug)]
pub enum ServiceError {
    Unexpected(String),
}

/// The human-readable description of a service failure.
pub open spec fn spec_service_error_text(e: ServiceError) -> Seq<char> {
    match e {
        ServiceError::Unexpected(message) => message@,
    }
}

impl ServiceError {
    /// Wrap a client failure, prefixing its description with context.
    pub fn from_client(err: ClientError) -> (r: ServiceError)
        ensures
            r matches ServiceError::Unexpected(m) && m@ == "Client error: "@
                + spec_client_error_text(err),
    {
        let mut s = String::from_str("Client error: ");
        let detail = err.message();
        s.append(detail.as_str());
        ServiceError::Unexpected(s)
    }

    /// The human-readable description of the failure.
    pub fn message(&self) -> (r: String)
        ensures
            r@ == spec_service_error_text(*self),
    {
        match self {
            ServiceError::Unexpected(message) => message.clone(),
        }
    }
}

/// Whether `notify` accepts `candidate` as the new predecessor: always
/// when none is set, otherwise only when the candidate lies in the arc
/// from the current predecessor to this node.
pub open spec fn spec_accepts_predecessor(
    predecessor: Option<Node>,
    candidate: Node,
    self_id: u64,
) -> bool {
    match predecessor {
        None => true,
        Some(q) => spec_between(candidate.id, q.id, self_id),
    }
}

/// The closest preceding finger for a lookup of `id`: scanning the finger
/// table from the highest index down, the first cached peer lying in the
/// open arc `(self_id, id)`; the peer of the first finger — the immediate
/// successor — when no finger qualifies.
pub open spec fn spec_closest_preceding(fingers: Seq<Finger>, self_id: u64, id: u64) -> Node
    recommends
        fingers.len() >= 1,
    decreases fingers.len(),
{
    if fingers.len() <= 1 {
        fingers[0].node
    } else if spec_between_open(fingers.last().node.id, self_id, id) {
        fingers.last().node
    } else {
        spec_closest_preceding(fingers.drop_last(), self_id, id)
    }
}

/// The protocol engine of one node, generic over the transport capability
/// used to reach other nodes.
pub struct NodeService<C: Client> {
    pub id: u64,
    pub addr: NetworkAddress,
    pub store: NodeStore,
    pub phantom: PhantomData<C>,
}

impl<C: Client> NodeService<C> {
    /// The service is usable as long as its store has a first finger to
    /// serve as the immediate successor.
    pub open spec fn wf(&self) -> bool {
        self.store.wf()
    }

    /// The immediate successor recorded in the store.
    pub open spec fn spec_successor(&self) -> Node {
        self.store.spec_successor()
    }

    /// A fresh node with the given identifier: alone on the ring, no
    /// predecessor, every finger pointing at itself.
    pub fn with_id(id: u64, addr: NetworkAddress) -> (r: Self)
        ensures
            r.wf(),
            r.id == id,
            r.addr == addr,
            r.store.predecessor is None,
            r.store.finger_table.len() == 64,
            forall|i: int|
                0 <= i < 64 ==> r.store.finger_table[i] == (Finger {
                    start: spec_finger_id(64, id, (i + 1) as u8),
                    node: Node { id, addr },
                }),
    {
        let store = NodeStore::new(Node::with_id(id, addr));
        NodeService { id, addr, store, phantom: PhantomData }
    }

    /// A fresh node at `addr`, its identifier derived from the endpoint's
    /// textual form by the fixed hash.
    pub fn new(addr: NetworkAddress) -> (r: Self)
        ensures
            r.wf(),
            r.id == spec_node_id(addr),
            r.addr == addr,
            r.store.predecessor is None,
            r.store.finger_table.len() == 64,
            forall|i: int|
                0 <= i < 64 ==> r.store.finger_table[i] == (Finger {
                    start: spec_finger_id(64, spec_node_id(addr), (i + 1) as u8),
                    node: Node { id: spec_node_id(addr), addr },
                }),
    {
        let node = Node::new(addr);
        Self::with_id(node.id, addr)
    }

    /// The current successor of this node.
    pub fn successor(&self) -> (r: Node)
        requires
            self.wf(),
        ensures
            r == self.spec_successor(),
    {
        self.store.successor()
    }

    /// The current predecessor of this node, if one is known.
    pub fn predecessor(&self) -> (r: Option<Node>)
        ensures
            r == self.store.predecessor,
    {
        self.store.predecessor()
    }

    /// The closest preceding finger for a lookup of `id`, scanning the
    /// finger table from the highest index down.
    pub fn closest_preceding_node(&self, id: u64) -> (r: Node)
        requires
            self.wf(),
        ensures
            r == spec_closest_preceding(self.store.finger_table@, self.id, id),
    {
        let ghost all = self.store.finger_table@;
        let mut i: usize = self.store.finger_table.len();
        proof {
            assert(all.take(all.len() as int) =~= all);
        }
        while i > 1
            invariant
                self.wf(),
                1 <= i <= self.store.finger_table.len(),
                all == self.store.finger_table@,
                spec_closest_preceding(all, self.id, id) == spec_closest_preceding(
                    all.take(i as int),
                    self.id,
                    id,
                ),
            decreases i,
        {
            let f = self.store.finger_table[i - 1];
            proof {
                assert(all.take(i as int).last() == f);
            }
            if Node::is_between_on_ring(f.node.id, self.id, id) && f.node.id != id {
                return f.node;
            }
            proof {
                assert(all.take(i as int).drop_last() =~= all.take(i as int - 1));
            }
            i = i - 1;
        }
        self.store.successor()
    }

    /// Find the successor of `id`.
    ///
    /// When `id` lies in the arc from this node to its successor, the
    /// successor answers locally. Otherwise the lookup is delegated to the
    /// closest preceding finger — answered locally again should that
    /// finger be this node itself — and the remote answer, whatever it is,
    /// is returned as-is; a remote failure is surfaced as
    /// [`ServiceError::Unexpected`].
    pub fn find_successor(&self, id: u64) -> (r: Result<Node, ServiceError>)
        requires
            self.wf(),
        ensures
            spec_between(id, self.id, self.spec_successor().id) ==> r == Ok::<Node, ServiceError>(
                self.spec_successor(),
            ),
            !spec_between(id, self.id, self.spec_successor().id) && spec_closest_preceding(
                self.store.finger_table@,
                self.id,
                id,
            ).id == self.id ==> r == Ok::<Node, ServiceError>(self.spec_successor()),
    {
        let successor = self.store.successor();
        if Node::is_between_on_ring(id, self.id, successor.id) {
            Ok(successor)
        } else {
            let n = self.closest_preceding_node(id);
            if n.id == self.id {
                // Every finger may still point at this node itself, for
                // instance right after start: answer locally rather than
                // call our own endpoint.
                return Ok(successor);
            }
            let client: C = n.client();
            match client.find_successor(id) {
                Ok(answer) => Ok(answer),
                Err(e) => Err(ServiceError::from_client(e)),
            }
        }
    }

    /// Join the ring that `node` belongs to: ask it for the successor of
    /// this node's identifier and record the answer as the successor. On
    /// failure nothing changes; the predecessor is left unset either way
    /// and is learned later through `notify`.
    pub fn join(&mut self, node: Node) -> (r: Result<(), ServiceError>)
        requires
            old(self).wf(),
        ensures
            final(self).wf(),
            final(self).id == old(self).id,
            final(self).addr == old(self).addr,
            final(self).store.predecessor == old(self).store.predecessor,
            final(self).store.finger_table.len() == old(self).store.finger_table.len(),
            forall|i: int|
                1 <= i < old(self).store.finger_table.len() ==> final(self).store.finger_table[i]
                    == old(self).store.finger_table[i],
            final(self).store.finger_table[0].start == old(self).store.finger_table[0].start,
            r is Err ==> final(self).store.finger_table == old(self).store.finger_table,
    {
        let client: C = node.client();
        match client.find_successor(self.id) {
            Ok(successor) => {
                self.store.set_successor(successor);
                Ok(())
            },
            Err(e) => Err(ServiceError::from_client(e)),
        }
    }

    /// Learn of a potential new predecessor: adopt `node` when no
    /// predecessor is set, or when `node` lies in the arc from the current
    /// predecessor to this node; ignore it otherwise.
    pub fn notify(&mut self, node: Node)
        ensures
            final(self).id == old(self).id,
            final(self).addr == old(self).addr,
            final(self).store.finger_table == old(self).store.finger_table,
            final(self).store.predecessor == (if spec_accepts_predecessor(
                old(self).store.predecessor,
                node,
                old(self).id,
            ) {
                Some(node)
            } else {
                old(self).store.predecessor
            }),
    {
        let predecessor = self.store.predecessor();
        match predecessor {
            None => {
                self.store.set_predecessor(node);
            },
            Some(q) => {
                if Node::is_between_on_ring(node.id, q.id, self.id) {
                    self.store.set_predecessor(node);
                }
            },
        }
    }

    /// Apply the successor's answer about its own predecessor: adopt the
    /// reported node as the new successor exactly when it lies in the arc
    /// from this node to the current successor; any failure, or an unknown
    /// predecessor, changes nothing. Public so that the adoption rule is
    /// stated for every answer the remote could give.
    pub fn adopt_if_closer(&mut self, answer: Result<Option<Node>, ClientError>)
        requires
            old(self).wf(),
        ensures
            final(self).wf(),
            final(self).id == old(self).id,
            final(self).addr == old(self).addr,
            final(self).store.predecessor == old(self).store.predecessor,
            final(self).store.finger_table.len() == old(self).store.finger_table.len(),
            forall|i: int|
                1 <= i < old(self).store.finger_table.len() ==> final(self).store.finger_table[i]
                    == old(self).store.finger_table[i],
            final(self).store.finger_table[0].start == old(self).store.finger_table[0].start,
            final(self).spec_successor() == (match answer {
                Ok(Some(x)) => if spec_between(
                    x.id,
                    old(self).id,
                    old(self).spec_successor().id,
                ) {
                    x
                } else {
                    old(self).spec_successor()
                },
                _ => old(self).spec_successor(),
            }),
    {
        match answer {
            Ok(Some(x)) => {
                let successor = self.store.successor();
                if Node::is_between_on_ring(x.id, self.id, successor.id) {
                    self.store.set_successor(x);
                }
            },
            _ => {},
        }
    }

    /// One stabilization round: ask the current successor for its
    /// predecessor, adopt that node as the new successor when it lies
    /// strictly closer on the ring, then notify the (possibly new)
    /// successor of this node. A failure of the first ask aborts the round
    /// silently: nothing further is sent and the round reports success. A
    /// failure of the notify is surfaced. Either way the predecessor and
    /// every finger start are untouched, and the successor is only ever
    /// replaced by a node in the arc it closes.
    pub fn stabilize(&mut self) -> (r: Result<(), ServiceError>)
        requires
            old(self).wf(),
        ensures
            final(self).wf(),
            final(self).id == old(self).id,
            final(self).addr == old(self).addr,
            final(self).store.predecessor == old(self).store.predecessor,
            final(self).store.finger_table.len() == old(self).store.finger_table.len(),
            forall|i: int|
                1 <= i < old(self).store.finger_table.len() ==> final(self).store.finger_table[i]
                    == old(self).store.finger_table[i],
            final(self).store.finger_table[0].start == old(self).store.finger_table[0].start,
            final(self).spec_successor() == old(self).spec_successor() || spec_between(
                final(self).spec_successor().id,
                old(self).id,
                old(self).spec_successor().id,
            ),
    {
        let successor = self.store.successor();
        let client: C = successor.client();
        let answer = client.predecessor();
        let failed = match &answer {
            Ok(_) => false,
            Err(_) => true,
        };
        self.adopt_if_closer(answer);
        if failed {
            return Ok(());
        }

        let current = self.store.successor();
        let client: C = current.client();
        match client.notify(Node { id: self.id, addr: self.addr }) {
            Ok(_) => Ok(()),
            Err(e) => Err(ServiceError::from_client(e)),
        }
    }

    /// Apply a ping outcome to the predecessor pointer: only an explicit
    /// `ConnectionFailed` clears it; success, or any other failure, leaves
    /// it in place. Public so that the clearing rule is stated for every
    /// outcome the ping could have.
    pub fn handle_ping_result(&mut self, outcome: Result<(), ClientError>)
        ensures
            final(self).id == old(self).id,
            final(self).addr == old(self).addr,
            final(self).store.finger_table == old(self).store.finger_table,
            outcome matches Err(ClientError::ConnectionFailed(_)) ==> final(self).store.predecessor is None,
            !(outcome matches Err(ClientError::ConnectionFailed(_))) ==> final(self).store.predecessor == old(self).store.predecessor,
    {
        match outcome {
            Err(ClientError::ConnectionFailed(_)) => {
                self.store.unset_predecessor();
            },
            _ => {},
        }
    }

    /// One liveness check of the predecessor: ping it if one is set, and
    /// clear it exactly when the ping reports the peer unreachable.
    /// Nothing else ever changes; liveness is never inferred from silence.
    pub fn check_predecessor(&mut self)
        ensures
            final(self).id == old(self).id,
            final(self).addr == old(self).addr,
            final(self).store.finger_table == old(self).store.finger_table,
            final(self).store.predecessor == old(self).store.predecessor || final(self).store.predecessor is None,
            old(self).store.predecessor is None ==> final(self).store.predecessor == old(self).store.predecessor,
    {
        let predecessor = self.store.predecessor();
        match predecessor {
            None => {},
            Some(p) => {
                let client: C = p.client();
                let outcome = client.ping();
                self.handle_ping_result(outcome);
            },
        }
    }

    /// One refresh round of the finger table: for each entry, look up the
    /// authoritative successor of its start and install the answer as the
    /// entry's peer; a failed lookup leaves that entry unchanged and does
    /// not stop the round. Starts are never mutated.
    ///
    /// For the entries whose starts lie in the arc this node's successor
    /// closes, the lookup is answered locally and the refreshed peer is
    /// pinned: provided the first start lies in that arc (so that the
    /// successor itself is stable through the round — always the case for
    /// a node alone on its ring, whose successor arc is the whole ring),
    /// every such entry ends up pointing at the successor.
    pub fn fix_fingers(&mut self)
        requires
            old(self).wf(),
        ensures
            final(self).wf(),
            final(self).id == old(self).id,
            final(self).addr == old(self).addr,
            final(self).store.predecessor == old(self).store.predecessor,
            final(self).store.finger_table.len() == old(self).store.finger_table.len(),
            forall|i: int|
                0 <= i < old(self).store.finger_table.len() ==> final(self).store.finger_table[i].start == old(self).store.finger_table[i].start,
            spec_between(
                old(self).store.finger_table[0].start,
                old(self).id,
                old(self).spec_successor().id,
            ) ==> forall|i: int|
                0 <= i < old(self).store.finger_table.len() && spec_between(
                    old(self).store.finger_table[i].start,
                    old(self).id,
                    old(self).spec_successor().id,
                ) ==> final(self).store.finger_table[i].node == old(self).spec_successor(),
    {
        let n = self.store.finger_table.len();
        let mut i: usize = 0;
        while i < n
            invariant
                self.wf(),
                i <= n,
                n == self.store.finger_table.len(),
                self.id == old(self).id,
                self.addr == old(self).addr,
                self.store.predecessor == old(self).store.predecessor,
                self.store.finger_table.len() == old(self).store.finger_table.len(),
                forall|j: int|
                    0 <= j < n ==> self.store.finger_table[j].start == old(self).store.finger_table[j].start,
                spec_between(
                    old(self).store.finger_table[0].start,
                    old(self).id,
                    old(self).spec_successor().id,
                ) ==> self.spec_successor() == old(self).spec_successor() && forall|j: int|
                    0 <= j < i && spec_between(
                        old(self).store.finger_table[j].start,
                        old(self).id,
                        old(self).spec_successor().id,
                    ) ==> self.store.finger_table[j].node == old(self).spec_successor(),
            decreases n - i,
        {
            let start = self.store.finger_table[i].start;
            let result = self.find_successor(start);
            match result {
                Ok(answer) => {
                    self.store.set_finger(i, answer);
                },
                Err(_) => {},
            }
            i = i + 1;
        }
    }
}

} // verus!
