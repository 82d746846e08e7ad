//! The finger table: a per-node cache of successors of exponentially spaced
//! identifiers, used to accelerate lookup from `O(N)` to `O(log N)` hops.

use vstd::prelude::*;
use vstd::arithmetic::power2::{
    pow2, lemma_pow2_pos, lemma_pow2_unfold, lemma_pow2_adds, lemma_pow2_strictly_increases,
    lemma2_to64, lemma2_to64_rest,
};
use vstd::arithmetic::div_mod::{lemma_add_mod_noop, lemma_small_mod, lemma_mod_bound};
use crate::node::Node;

verus! {

/// One entry of a finger table: the precomputed start identifier and the
/// cached successor of that identifier. The cached peer may be stale; the
/// start is fixed at construction and never changes.
#[derive(Clone, Copy, Debug)]
pub struct Finger {
    pub start: u64,
    pub node: Node,
}

/// The start identifier of finger `index` of a node with identifier
/// `node_id`, on a ring of `2^size` identifiers: `node_id` itself for index
/// zero, otherwise `(node_id + 2^(index - 1)) % 2^size`.
pub open spec fn spec_finger_id(size: u8, node_id: u64, index: u8) -> u64 {
    if index == 0 {
        node_id
    } else {
        ((node_id + pow2((index - 1) as nat)) % (pow2(size as nat) as int)) as u64
    }
}

/// `2^e`, computed exactly in 128-bit arithmetic.
fn pow2_u128(e: u8) -> (r: u128)
    requires
        e < 128,
    ensures
        r == pow2(e as nat),
{
    let mut r: u128 = 1;
    let mut i: u8 = 0;
    proof {
        lemma2_to64();
    }
    while i < e
        invariant
            i <= e < 128,
            r == pow2(i as nat),
        decreases e - i,
    {
        proof {
            lemma_pow2_unfold((i + 1) as nat);
            if ((i + 1) as nat) < 127 {
                lemma_pow2_strictly_increases((i + 1) as nat, 127);
            }
            lemma_pow2_adds(63, 64);
            lemma2_to64_rest();
        }
        r = r * 2;
        i = i + 1;
    }
    r
}

impl Finger {
    /// The start identifier of finger `index` on the default ring of `2^64`
    /// identifiers.
    ///
    /// The formula follows the classical chord paper:
    /// `(node_id + 2^(index - 1)) % 2^m`.
    pub fn finger_id(node_id: u64, index: u8) -> (r: u64)
        requires
            index <= 128,
        ensures
            r == spec_finger_id(64, node_id, index),
    {
        Self::sized_finger_id(64u8, node_id, index)
    }

    /// The start identifier of finger `index` on a ring of `2^size`
    /// identifiers. The intermediate sum is taken in 128-bit arithmetic so
    /// that it cannot overflow before the modulo.
    pub fn sized_finger_id(size: u8, node_id: u64, index: u8) -> (r: u64)
        requires
            1 <= size <= 64,
            index <= 128,
        ensures
            r == spec_finger_id(size, node_id, index),
    {
        if index == 0 {
            return node_id;
        }

        let offset: u128 = pow2_u128(index - 1);
        let power: u128 = pow2_u128(size);

        proof {
            lemma_pow2_pos(size as nat);
            if ((index - 1) as nat) < 127 {
                lemma_pow2_strictly_increases((index - 1) as nat, 127);
            }
            lemma_pow2_adds(63, 64);
            lemma2_to64_rest();
            if (size as nat) < 64 {
                lemma_pow2_strictly_increases(size as nat, 64);
            }
        }
        let id = (node_id as u128 + offset) % power;
        proof {
            lemma_mod_bound((node_id + offset) as int, power as int);
        }

        id as u64
    }

    /// The identifier space of finger starts begins at the node itself.
    pub proof fn lemma_finger_start_base(size: u8, node_id: u64)
        ensures
            spec_finger_id(size, node_id, 0) == node_id,
    {
    }

    /// The first finger start is one step past the node: adding `2^0` to the
    /// zeroth start, modulo the size of the ring.
    pub proof fn lemma_finger_start_first(size: u8, node_id: u64)
        requires
            1 <= size <= 64,
        ensures
            spec_finger_id(size, node_id, 1) == ((spec_finger_id(size, node_id, 0) + pow2(0)) % (
            pow2(size as nat) as int)) as u64,
    {
        lemma2_to64();
    }

    /// Each further finger start repeats the previous offset: for
    /// `index >= 1`, start `index + 1` is start `index` plus `2^(index - 1)`,
    /// modulo the size of the ring. Start `index` already contains one
    /// `2^(index - 1)` term, so adding a second yields the `2^index` of the
    /// defining formula.
    pub proof fn lemma_finger_start_step(size: u8, node_id: u64, index: u8)
        requires
            1 <= size <= 64,
            1 <= index <= size,
        ensures
            spec_finger_id(size, node_id, (index + 1) as u8) == ((spec_finger_id(
                size,
                node_id,
                index,
            ) + pow2((index - 1) as nat)) % (pow2(size as nat) as int)) as u64,
    {
        let m = pow2(size as nat) as int;
        let off = pow2((index - 1) as nat) as int;
        lemma_pow2_pos(size as nat);
        lemma_pow2_unfold(index as nat);
        lemma_pow2_strictly_increases((index - 1) as nat, size as nat);
        lemma2_to64_rest();
        if (size as nat) < 64 {
            lemma_pow2_strictly_increases(size as nat, 64);
        }
        lemma_mod_bound(node_id + off, m);
        lemma_mod_bound(node_id + off + off, m);
        lemma_small_mod(pow2((index - 1) as nat), pow2(size as nat));
        lemma_add_mod_noop(node_id + off, off, m);
        assert((node_id + off) % m + off % m == (node_id + off) % m + off);
        assert(((node_id + off) % m + off) % m == (node_id + off + off) % m);
        assert(node_id + off + off == node_id + pow2(index as nat));
    }

    /// A fresh finger table of `size` entries for the node `node_id`, every
    /// entry pointing at `node`: the correct initial state for a node that
    /// has learned exactly one peer (usually its immediate successor, or
    /// itself when it is alone).
    pub fn sized_finger_table(size: u8, node_id: u64, node: Node) -> (r: Vec<Finger>)
        requires
            1 <= size <= 64,
        ensures
            r.len() == size,
            forall|i: int|
                0 <= i < size ==> r[i] == (Finger {
                    start: spec_finger_id(size, node_id, (i + 1) as u8),
                    node,
                }),
    {
        let mut fingers: Vec<Finger> = Vec::new();

        // The finger id formula counts fingers from one, so the entry at
        // position i holds the start of finger i + 1.
        let mut i: u8 = 1;
        while i <= size
            invariant
                1 <= size <= 64,
                1 <= i <= size + 1,
                fingers.len() == i - 1,
                forall|j: int|
                    0 <= j < i - 1 ==> fingers[j] == (Finger {
                        start: spec_finger_id(size, node_id, (j + 1) as u8),
                        node,
                    }),
            decreases size + 1 - i,
        {
            let finger_id = Self::sized_finger_id(size, node_id, i);
            fingers.push(Finger { start: finger_id, node });
            i = i + 1;
        }

        fingers
    }

    /// A fresh finger table on the default ring of `2^64` identifiers.
    pub fn init_finger_table(node_id: u64, node: Node) -> (r: Vec<Finger>)
        ensures
            r.len() == 64,
            forall|i: int|
                0 <= i < 64 ==> r[i] == (Finger {
                    start: spec_finger_id(64, node_id, (i + 1) as u8),
                    node,
                }),
    {
        Self::sized_finger_table(64, node_id, node)
    }
}

} // verus!
