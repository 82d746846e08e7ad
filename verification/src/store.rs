//! The local record of a node's ring state: its optional predecessor and
//! its finger table. The immediate successor is the peer of the first
//! finger. The store is passive: it enforces no cross-field invariants and
//! performs no I/O; it is mutated only by the protocol engine.

use vstd::prelude::*;
use vstd::pervasive::VecAdditionalExecFns;
use crate::finger::{Finger, spec_finger_id};
use crate::node::Node;

verus! {

/// A node's mutable ring state.
#[derive(Debug)]
pub struct NodeStore {
    pub predecessor: Option<Node>,
    pub finger_table: Vec<Finger>,
}

impl NodeStore {
    /// A store is usable as long as it has a first finger to serve as the
    /// immediate successor.
    pub open spec fn wf(&self) -> bool {
        self.finger_table.len() >= 1
    }

    /// The immediate successor recorded in the store.
    pub open spec fn spec_successor(&self) -> Node {
        self.finger_table[0].node
    }

    /// A fresh store on the default ring of `2^64` identifiers: no
    /// predecessor, and every finger pointing at `successor`.
    pub fn new(successor: Node) -> (r: Self)
        ensures
            r.wf(),
            r.predecessor is None,
            r.finger_table.len() == 64,
            forall|i: int|
                0 <= i < 64 ==> r.finger_table[i] == (Finger {
                    start: spec_finger_id(64, successor.id, (i + 1) as u8),
                    node: successor,
                }),
    {
        NodeStore {
            predecessor: None,
            finger_table: Finger::init_finger_table(successor.id, successor),
        }
    }

    /// A fresh store on a ring of `2^size` identifiers.
    pub fn sized(size: u8, successor: Node) -> (r: Self)
        requires
            1 <= size <= 64,
        ensures
            r.wf(),
            r.predecessor is None,
            r.finger_table.len() == size,
            forall|i: int|
                0 <= i < size ==> r.finger_table[i] == (Finger {
                    start: spec_finger_id(size, successor.id, (i + 1) as u8),
                    node: successor,
                }),
    {
        NodeStore {
            predecessor: None,
            finger_table: Finger::sized_finger_table(size, successor.id, successor),
        }
    }

    /// Set the predecessor of the node.
    pub fn set_predecessor(&mut self, predecessor: Node)
        ensures
            final(self).predecessor == Some(predecessor),
            final(self).finger_table == old(self).finger_table,
    {
        self.predecessor = Some(predecessor);
    }

    /// Unset the predecessor of the node.
    pub fn unset_predecessor(&mut self)
        ensures
            final(self).predecessor is None,
            final(self).finger_table == old(self).finger_table,
    {
        self.predecessor = None;
    }

    /// The predecessor of the node, if one is known.
    pub fn predecessor(&self) -> (r: Option<Node>)
        ensures
            r == self.predecessor,
    {
        self.predecessor
    }

    /// Set the successor of the node: the peer of the first finger. The
    /// finger's start and every other entry are untouched.
    pub fn set_successor(&mut self, successor: Node)
        requires
            old(self).wf(),
        ensures
            final(self).wf(),
            final(self).predecessor == old(self).predecessor,
            final(self).finger_table@ == old(self).finger_table@.update(
                0,
                Finger { start: old(self).finger_table[0].start, node: successor },
            ),
    {
        let start = self.finger_table[0].start;
        self.finger_table.set(0, Finger { start, node: successor });
    }

    /// The successor of the node.
    pub fn successor(&self) -> (r: Node)
        requires
            self.wf(),
        ensures
            r == self.spec_successor(),
    {
        self.finger_table[0].node
    }

    /// Replace the cached peer of the finger at `index`, leaving its start
    /// and every other entry untouched.
    pub fn set_finger(&mut self, index: usize, peer: Node)
        requires
            index < old(self).finger_table.len(),
        ensures
            final(self).predecessor == old(self).predecessor,
            final(self).finger_table@ == old(self).finger_table@.update(
                index as int,
                Finger { start: old(self).finger_table[index as int].start, node: peer },
            ),
    {
        let start = self.finger_table[index].start;
        self.finger_table.set(index, Finger { start, node: peer });
    }

    /// The finger table, in start order.
    pub fn fingers(&self) -> (r: &Vec<Finger>)
        ensures
            r == self.finger_table,
    {
        &self.finger_table
    }
}

} // verus!
