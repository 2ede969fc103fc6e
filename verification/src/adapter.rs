//! The handler adapter: the object registered with the dispatch pipeline.
//! It satisfies the pipeline's service triad — a readiness probe that is
//! always ready, a per-request call that returns a bridged future of a
//! pipeline response, and a factory capability that manufactures a fresh,
//! already-ready adapter for each new service slot.
//!
//! An adapter holds exactly one handler value and no other state; no data
//! survives across requests, so calls on one adapter, or on independent
//! clones of it, never observe one another.

use vstd::prelude::*;

use crate::error::Error;
use crate::extract::FromRequest;
use crate::factory::AsyncFactory;
use crate::future::Async;
use crate::future::Compat;
use crate::future::SpawnedFuture;
use crate::http::RequestHead;
use crate::http::ServiceRequest;
use crate::http::ServiceResponse;
use crate::respond::Responder;

verus! {

/// The whole per-request pipeline as one mathematical function: extract
/// the argument tuple from the request parts, hand it to the handler, and
/// convert the handler's output into a transport response paired with the
/// request metadata. A failure at any stage short-circuits the stages
/// after it; in particular an extraction failure yields the derived error
/// before the handler is ever consulted.
pub open spec fn spec_execute<H, T, U>(handler: H, head: RequestHead, body: Seq<u8>) -> Result<
    ServiceResponse,
    Error,
> where H: AsyncFactory<T, U>, T: FromRequest, U: Responder {
    match T::spec_from_request(head, body) {
        Err(e) => Err(Error::Extract(e)),
        Ok(args) => match handler.spec_call(args).spec_respond(head) {
            Ok(resp) => Ok(ServiceResponse { head, response: resp }),
            Err(e) => Err(e),
        },
    }
}

/// The adapter registered with the dispatch pipeline: one handler value
/// and nothing else.
#[derive(Debug, PartialEq, Eq)]
pub struct AsyncHandler<H> {
    pub handler: H,
}

impl<H> AsyncHandler<H> {
    /// Wrap a handler value; this always succeeds.
    pub fn new(handler: H) -> (r: Self)
        ensures
            r.handler == handler,
    {
        AsyncHandler { handler }
    }

    /// Run one request through the whole pipeline: split the request into
    /// metadata and body, extract the declared argument tuple, invoke the
    /// handler on it, and convert the output into a pipeline response. The
    /// result is exactly `spec_execute` of the handler and the request
    /// parts.
    pub fn execute<T, U>(handler: H, req: ServiceRequest) -> (r: Result<ServiceResponse, Error>) where
        H: AsyncFactory<T, U>,
        T: FromRequest,
        U: Responder,

        ensures
            r == spec_execute::<H, T, U>(handler, req.head, req.payload@),
    {
        let (head, payload) = req.into_parts();

        let request = match T::from_request(&head, &payload) {
            Ok(args) => args,
            Err(e) => {
                return Err(Error::Extract(e));
            },
        };
        let resp = handler.call(request);

        match resp.respond_to(&head) {
            Ok(resp) => Ok(ServiceResponse::new(head, resp)),
            Err(err) => Err(err),
        }
    }

    /// The readiness probe: the adapter imposes no admission control of
    /// its own, so it reports ready whatever was asked of it before, and
    /// probing changes nothing.
    pub fn poll_ready(&mut self) -> (r: Result<Async<()>, Error>)
        ensures
            r == Ok::<Async<()>, Error>(Async::Ready(())),
            *final(self) == *old(self),
    {
        Ok(Async::Ready(()))
    }

    /// The per-request call: run the pipeline for this request and hand
    /// the pipeline back a bridged future that resolves to the outcome.
    /// The adapter itself is left exactly as it was — no state survives
    /// the call — and the outcome is a function of the handler and the
    /// request alone.
    pub fn call<T, U>(&mut self, req: ServiceRequest) -> (r: Compat<ServiceResponse, Error>) where
        H: AsyncFactory<T, U>,
        T: FromRequest,
        U: Responder,

        ensures
            *final(self) == *old(self),
            r.inner.delays == 0,
            r.inner.output == Some(
                spec_execute::<H, T, U>(old(self).handler, req.head, req.payload@),
            ),
    {
        let handler = self.handler;
        Compat::new(SpawnedFuture::ready(AsyncHandler::execute(handler, req)))
    }

    /// The service-factory capability: manufacture a ready-to-use adapter
    /// for a new service slot. The returned future is already resolved,
    /// and its outcome is always the successful one — the error channel
    /// exists only to satisfy the pipeline's generic contract — carrying a
    /// fresh duplicate of this adapter.
    pub fn new_service(&self, _cfg: &()) -> (r: SpawnedFuture<Result<AsyncHandler<H>, ()>>) where
        H: Copy,

        ensures
            r.delays == 0,
            r.output == Some(Ok::<AsyncHandler<H>, ()>(*self)),
    {
        SpawnedFuture::ready(Ok(self.clone()))
    }
}

impl<H: Copy> Clone for AsyncHandler<H> {
    /// Duplicating an adapter duplicates the handler value and shares
    /// nothing mutable.
    fn clone(&self) -> (r: Self)
        ensures
            r == *self,
    {
        AsyncHandler { handler: self.handler }
    }
}

impl<H: Copy> Copy for AsyncHandler<H> {

}

/// Adapt a handler: wrap it into the object the dispatch pipeline
/// registers.
pub fn to_async<H>(handler: H) -> (r: AsyncHandler<H>)
    ensures
        r.handler == handler,
{
    AsyncHandler::new(handler)
}

/// When extraction succeeds, the call outcome is the handler's output for
/// the extracted arguments, converted against the request metadata: a
/// successful conversion yields the pipeline response pairing the request
/// metadata with the converted response, and a failed conversion yields
/// that failure.
pub proof fn lemma_success_resolves_to_converted_output<H, T, U>(
    handler: H,
    head: RequestHead,
    body: Seq<u8>,
) where H: AsyncFactory<T, U>, T: FromRequest, U: Responder
    requires
        T::spec_from_request(head, body) is Ok,
    ensures
        ({
            let args = match T::spec_from_request(head, body) {
                Ok(args) => args,
                Err(_) => arbitrary(),
            };
            match handler.spec_call(args).spec_respond(head) {
                Ok(resp) => spec_execute::<H, T, U>(handler, head, body) == Ok::<
                    ServiceResponse,
                    Error,
                >(ServiceResponse { head, response: resp }),
                Err(e) => spec_execute::<H, T, U>(handler, head, body) == Err::<
                    ServiceResponse,
                    Error,
                >(e),
            }
        }),
{
}

/// When extraction fails, the call outcome is the error derived from the
/// extraction failure, and the handler is never consulted: any two
/// handlers — even of different types — give the same outcome on such a
/// request.
pub proof fn lemma_extraction_failure_skips_handler<H1, H2, T, U>(
    first: H1,
    second: H2,
    head: RequestHead,
    body: Seq<u8>,
) where H1: AsyncFactory<T, U>, H2: AsyncFactory<T, U>, T: FromRequest, U: Responder
    requires
        T::spec_from_request(head, body) is Err,
    ensures
        T::spec_from_request(head, body) matches Err(e) ==> spec_execute::<H1, T, U>(
            first,
            head,
            body,
        ) == Err::<ServiceResponse, Error>(Error::Extract(e)),
        spec_execute::<H1, T, U>(first, head, body) == spec_execute::<H2, T, U>(
            second,
            head,
            body,
        ),
{
}

/// Adapter clones are independent: a clone carries an equal handler, so a
/// call on the clone has exactly the outcome the same request would have
/// on the original, and — the outcome being a function of the handler and
/// the request alone — neither invocation can observe the other's.
pub proof fn lemma_cloned_adapters_independent<H, T, U>(
    original: AsyncHandler<H>,
    duplicate: AsyncHandler<H>,
    head: RequestHead,
    body: Seq<u8>,
) where H: AsyncFactory<T, U>, T: FromRequest, U: Responder
    requires
        duplicate.handler == original.handler,
    ensures
        spec_execute::<H, T, U>(duplicate.handler, head, body) == spec_execute::<H, T, U>(
            original.handler,
            head,
            body,
        ),
{
}

} // verus!
