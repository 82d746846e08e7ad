//! Ring membership arithmetic on the 64-bit identifier circle.

use vstd::prelude::*;

verus! {

/// Membership of `id` in the clockwise arc `(a, b]` of the identifier ring:
/// strictly after `a`, at or before `b`. When `a >= b` the arc wraps around
/// zero; in particular the arc `(a, a]` is the whole ring.
pub open spec fn spec_between(id: u64, a: u64, b: u64) -> bool {
    if a < b {
        a < id && id <= b
    } else {
        a < id || id <= b
    }
}

/// Membership of `id` in the open clockwise arc `(a, b)`: the arc `(a, b]`
/// without its upper end.
pub open spec fn spec_between_open(id: u64, a: u64, b: u64) -> bool {
    spec_between(id, a, b) && id != b
}

/// On a non-wrapping arc (`a < b`), membership in `(a, b]` is the plain
/// interval test; on a wrapping arc (`a > b`) it is the disjunction of the
/// two straight pieces.
pub proof fn lemma_between_characterization(id: u64, a: u64, b: u64)
    ensures
        a < b ==> (spec_between(id, a, b) <==> (a < id && id <= b)),
        a > b ==> (spec_between(id, a, b) <==> (id > a || id <= b)),
{
}

} // verus!
