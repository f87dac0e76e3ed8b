//! Services: a request type paired with a response type, and the matching of
//! replies to requests.

use std::marker::PhantomData;
use vstd::prelude::*;

use crate::message::Message;

pub mod client;
pub mod request_id;
pub mod server;

verus! {

/// A service pairs the message that a requester sends with the message that
/// the responder returns, and names both types.
pub trait Service {
    /// What the requester sends.
    type Request: Message;

    /// What the responder returns.
    type Response: Message;

    /// The type name of the request message.
    fn request_type_name(&self) -> &str;

    /// The type name of the response message.
    fn response_type_name(&self) -> &str;
}

/// A [`Service`] put together from a request type, a response type and their
/// names.
pub struct AService<Q, S> where Q: Message, S: Message {
    q: PhantomData<Q>,
    s: PhantomData<S>,
    req_type_name: String,
    resp_type_name: String,
}

impl<Q, S> AService<Q, S> where Q: Message, S: Message {
    /// The request type name as characters.
    pub closed spec fn spec_request_type_name(&self) -> Seq<char> {
        self.req_type_name@
    }

    /// The response type name as characters.
    pub closed spec fn spec_response_type_name(&self) -> Seq<char> {
        self.resp_type_name@
    }

    /// A service descriptor with the given type names.
    pub fn new(req_type_name: String, resp_type_name: String) -> (service: Self)
        ensures
            service.spec_request_type_name() == req_type_name@,
            service.spec_response_type_name() == resp_type_name@,
    {
        Self { req_type_name, resp_type_name, q: PhantomData, s: PhantomData }
    }
}

impl<Q, S> Service for AService<Q, S> where Q: Message, S: Message {
    type Request = Q;

    type Response = S;

    fn request_type_name(&self) -> (name: &str)
        ensures
            name@ == self.spec_request_type_name(),
    {
        self.req_type_name.as_str()
    }

    fn response_type_name(&self) -> (name: &str)
        ensures
            name@ == self.spec_response_type_name(),
    {
        self.resp_type_name.as_str()
    }
}

/// How requests and responses are mapped onto DDS topics and sample headers.
///
/// Both ends of a service must use the same mapping.
#[derive(Clone, Copy, Debug, PartialEq, Eq, Structural)]
pub enum ServiceMapping {
    /// The "Basic" mapping of RPC over DDS.
    Basic,
    /// The "Enhanced" mapping of RPC over DDS.
    Enhanced,
    /// The mapping that CycloneDDS uses.
    Cyclone,
}

} // verus!
