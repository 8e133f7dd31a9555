//! Plain-value model of a peer identity.
//!
//! A peer id names a participant independently of its network address. The
//! transport layer derives it from a public key; the verified core only
//! compares ids for equality, so it carries the derived identity as a plain
//! integer handed in by the caller.

use vstd::prelude::*;

verus! {

/// A stable identifier for a participant, derived outside the core from the
/// participant's public key.
#[derive(PartialEq, Eq, Structural, Clone, Copy, Debug, Hash)]
pub struct PeerId {
    pub id: u64,
}

impl PeerId {
    pub fn new(id: u64) -> (r: PeerId)
        ensures
            r.id == id,
    {
        PeerId { id }
    }
}

} // verus!
