//! The example endpoints that exercise the adapter, one per supported
//! arity: a zero-argument probe, a one-argument echo of the typed request
//! body, and a two-argument handler combining the shared application value
//! with the typed request body. Each handler is a plain value whose
//! factory capability returns exactly what the underlying function returns
//! when called directly with the same arguments.

use vstd::prelude::*;

use crate::error::Error;
use crate::error::HandlerError;
use crate::extract::RecordBody;
use crate::extract::SharedValue;
use crate::factory::AsyncFactory;
use crate::http::HttpResponse;
use crate::http::RequestHead;
use crate::http::ResponseBody;
use crate::respond::BoundedValue;
use crate::respond::Responder;

verus! {

/// The demo service: its only state is an identifier, handed to requests
/// through the shared application value.
#[derive(Clone, Copy, Debug, PartialEq, Eq)]
pub struct Server {
    pub id: u64,
}

impl Server {
    /// What the probe endpoint answers: a successful response with no
    /// body.
    pub open spec fn spec_ping() -> HttpResponse {
        HttpResponse::spec_ok()
    }

    /// The zero-argument probe endpoint.
    pub fn ping() -> (r: HttpResponse)
        ensures
            r == Server::spec_ping(),
    {
        HttpResponse::ok()
    }

    /// What the info endpoint answers: a reply reflecting both the shared
    /// application value and the value decoded from the request body. Its
    /// failure channel is never populated.
    pub open spec fn spec_info(shared: SharedValue, request: RecordBody) -> Result<
        InfoReply,
        HandlerError,
    > {
        Ok(InfoReply { server_id: shared.value, record: request.value })
    }

    /// The two-argument info endpoint.
    pub fn info(shared: SharedValue, request: RecordBody) -> (r: Result<InfoReply, HandlerError>)
        ensures
            r == Server::spec_info(shared, request),
    {
        Ok(InfoReply { server_id: shared.value, record: request.value })
    }
}

/// The info endpoint's output: the shared application value and the
/// decoded request value, side by side.
#[derive(Clone, Copy, Debug, PartialEq, Eq)]
pub struct InfoReply {
    pub server_id: u64,
    pub record: u64,
}

impl Responder for InfoReply {
    open spec fn spec_respond(self, head: RequestHead) -> Result<
        HttpResponse,
        Error,
    > {
        Ok(
            HttpResponse {
                status: 200,
                body: ResponseBody::Record { shared: self.server_id, value: self.record },
            },
        )
    }

    fn respond_to(self, _head: &RequestHead) -> Result<HttpResponse, Error> {
        Ok(
            HttpResponse {
                status: 200,
                body: ResponseBody::Record { shared: self.server_id, value: self.record },
            },
        )
    }
}

/// The zero-argument handler value behind the probe endpoint.
#[derive(Clone, Copy, Debug, PartialEq, Eq)]
pub struct PingHandler;

impl AsyncFactory<(), HttpResponse> for PingHandler {
    open spec fn spec_call(&self, param: ()) -> HttpResponse {
        Server::spec_ping()
    }

    fn call(&self, _param: ()) -> HttpResponse {
        Server::ping()
    }
}

/// The one-argument handler value: it echoes the value decoded from the
/// request body, subject to the bound it was configured with.
#[derive(Clone, Copy, Debug, PartialEq, Eq)]
pub struct EchoHandler {
    pub limit: u64,
}

impl EchoHandler {
    /// What the echo endpoint computes for a decoded record.
    pub open spec fn spec_echo(&self, record: RecordBody) -> BoundedValue {
        BoundedValue { value: record.value, limit: self.limit }
    }

    /// The one-argument echo endpoint, callable directly.
    pub fn echo(&self, record: RecordBody) -> (r: BoundedValue)
        ensures
            r == self.spec_echo(record),
    {
        BoundedValue { value: record.value, limit: self.limit }
    }
}

impl AsyncFactory<(RecordBody,), BoundedValue> for EchoHandler {
    open spec fn spec_call(&self, param: (RecordBody,)) -> BoundedValue {
        self.spec_echo(param.0)
    }

    fn call(&self, param: (RecordBody,)) -> BoundedValue {
        self.echo(param.0)
    }
}

/// The two-argument handler value behind the info endpoint.
#[derive(Clone, Copy, Debug, PartialEq, Eq)]
pub struct InfoHandler;

impl AsyncFactory<(SharedValue, RecordBody), Result<InfoReply, HandlerError>> for InfoHandler {
    open spec fn spec_call(&self, param: (SharedValue, RecordBody)) -> Result<
        InfoReply,
        HandlerError,
    > {
        Server::spec_info(param.0, param.1)
    }

    fn call(&self, param: (SharedValue, RecordBody)) -> Result<InfoReply, HandlerError> {
        Server::info(param.0, param.1)
    }
}

/// Invoking the zero-argument handler through the factory capability with
/// the empty argument tuple yields exactly what the probe endpoint returns
/// when called directly.
pub proof fn lemma_arity_zero_adapted_equals_direct(handler: PingHandler)
    ensures
        handler.spec_call(()) == Server::spec_ping(),
{
}

/// Invoking the one-argument handler through the factory capability with
/// a one-element argument tuple yields exactly what the echo endpoint
/// returns when called directly with that argument.
pub proof fn lemma_arity_one_adapted_equals_direct(handler: EchoHandler, record: RecordBody)
    ensures
        handler.spec_call((record,)) == handler.spec_echo(record),
{
}

/// Invoking the two-argument handler through the factory capability with
/// a two-element argument tuple yields exactly what the info endpoint
/// returns when called directly with those arguments.
pub proof fn lemma_arity_two_adapted_equals_direct(
    handler: InfoHandler,
    shared: SharedValue,
    record: RecordBody,
)
    ensures
        handler.spec_call((shared, record)) == Server::spec_info(shared, record),
{
}

} // verus!
