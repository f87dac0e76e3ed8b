//! The token that ties a reply to its request.

use vstd::prelude::*;

verus! {

/// Identifies one request: who wrote it, and its number in that writer's
/// sequence.
///
/// The action layer never looks inside; it only compares two of them.
#[derive(Clone, Copy, Debug, PartialEq, Eq, Structural, PartialOrd, Ord, Hash)]
pub struct RmwRequestId {
    /// The sixteen bytes of the writer's GUID as one number, most significant
    /// byte first.
    pub writer_guid: u128,
    /// The request's sequence number.
    pub sequence_number: i64,
}

impl RmwRequestId {
    /// Makes a request id from its two parts.
    pub fn new(writer_guid: u128, sequence_number: i64) -> (id: RmwRequestId)
        ensures
            id == (RmwRequestId { writer_guid, sequence_number }),
    {
        RmwRequestId { writer_guid, sequence_number }
    }
}

} // verus!
