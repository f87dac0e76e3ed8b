//! The server's side of a service: a response goes out under the id of the
//! request that it answers.

use vstd::prelude::*;

use crate::service::request_id::RmwRequestId;

verus! {

/// A response, and the id of the request that it answers.
#[derive(Debug)]
pub struct Reply<T> {
    /// The id of the request.
    pub req_id: RmwRequestId,
    /// The response to send.
    pub response: T,
}

} // verus!
