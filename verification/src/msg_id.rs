//! Content-derived message identity.
//!
//! A message identifier is a hash of the payload bytes alone — not of the
//! payload together with the sender — so byte-identical payloads from
//! different publishers collide and are treated as duplicates by the
//! deduplication layer. This is an invariant of the design: it trades
//! perfect correctness for simpler, cheaper duplicate suppression.

use vstd::prelude::*;
use std::collections::hash_map::DefaultHasher;
use std::hash::Hash;
use std::hash::Hasher;

verus! {

/// The content hash of a byte sequence, as computed by the standard
/// library's default hasher.
pub uninterp spec fn content_hash(data: Seq<u8>) -> u64;

/// Relies on std's `DefaultHasher`: every hasher made by `DefaultHasher::new`
/// computes the same function, so the result depends on the input bytes alone.
#[verifier::external_body]
fn hash_bytes(data: &Vec<u8>) -> (r: u64)
    ensures
        r == content_hash(data@),
{
    let mut s = DefaultHasher::new();
    data.hash(&mut s);
    s.finish()
}

/// A content-derived message identifier.
#[derive(PartialEq, Eq, Structural, Clone, Copy, Debug, Hash)]
pub struct MessageId {
    pub id: u64,
}

impl MessageId {
    /// The identifier of a message with the given payload: the content hash
    /// of the payload bytes, independent of who publishes them.
    pub fn for_payload(data: &Vec<u8>) -> (r: MessageId)
        ensures
            r.id == content_hash(data@),
    {
        MessageId { id: hash_bytes(data) }
    }
}

} // verus!
