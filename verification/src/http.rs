//! Plain-value models of the request and response shapes that cross the
//! adapter boundary: an inbound request (metadata plus body bytes), a
//! transport response, and the pipeline response that pairs the original
//! request metadata with the generated transport response.

use vstd::prelude::*;

verus! {

/// Metadata of an inbound request. The only datum the adapter's extractors
/// read from the metadata is the shared application value, present when the
/// pipeline was configured with one.
#[derive(Clone, Copy, Debug, PartialEq, Eq)]
pub struct RequestHead {
    pub shared_data: Option<u64>,
}

/// An inbound request as handed to the adapter by the dispatch pipeline:
/// request metadata together with the body bytes.
#[derive(Clone, Debug, PartialEq, Eq)]
pub struct ServiceRequest {
    pub head: RequestHead,
    pub payload: Vec<u8>,
}

impl ServiceRequest {
    pub fn new(head: RequestHead, payload: Vec<u8>) -> (r: Self)
        ensures
            r.head == head,
            r.payload == payload,
    {
        ServiceRequest { head, payload }
    }

    /// Split the request into its metadata and its body, so that argument
    /// extraction can consume the body while the metadata survives to be
    /// paired with the response.
    pub fn into_parts(self) -> (r: (RequestHead, Vec<u8>))
        ensures
            r.0 == self.head,
            r.1 == self.payload,
    {
        (self.head, self.payload)
    }
}

/// The body of a transport response.
#[derive(Clone, Copy, Debug, PartialEq, Eq)]
pub enum ResponseBody {
    /// No body at all.
    Empty,
    /// A single rendered numeric value.
    Number(u64),
    /// A rendered record combining the shared application value with a
    /// value taken from the request body.
    Record { shared: u64, value: u64 },
}

/// A transport response: a status code and a body.
#[derive(Clone, Copy, Debug, PartialEq, Eq)]
pub struct HttpResponse {
    pub status: u16,
    pub body: ResponseBody,
}

impl HttpResponse {
    /// The successful response with no body.
    pub open spec fn spec_ok() -> HttpResponse {
        HttpResponse { status: 200, body: ResponseBody::Empty }
    }

    pub fn ok() -> (r: HttpResponse)
        ensures
            r == HttpResponse::spec_ok(),
    {
        HttpResponse { status: 200, body: ResponseBody::Empty }
    }
}

/// A pipeline response: the original request metadata paired with the
/// transport response generated for it.
#[derive(Clone, Copy, Debug, PartialEq, Eq)]
pub struct ServiceResponse {
    pub head: RequestHead,
    pub response: HttpResponse,
}

impl ServiceResponse {
    pub fn new(head: RequestHead, response: HttpResponse) -> (r: Self)
        ensures
            r.head == head,
            r.response == response,
    {
        ServiceResponse { head, response }
    }
}

} // verus!
