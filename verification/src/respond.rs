//! Response conversion. A responder turns a handler's output value into a
//! transport response, or fails with a conversion error; a handler that
//! returns a `Result` has its failure carried through opaquely as a
//! handler error.

use vstd::prelude::*;

use crate::error::ConvertError;
use crate::error::Error;
use crate::error::HandlerError;
use crate::http::HttpResponse;
use crate::http::RequestHead;
use crate::http::ResponseBody;

verus! {

/// A collaborator capability: convert a handler output into a transport
/// response. `spec_respond` is the mathematical statement of the
/// conversion, and `respond_to` is bound to it exactly.
pub trait Responder: Sized {
    spec fn spec_respond(self, head: RequestHead) -> Result<HttpResponse, Error>;

    fn respond_to(self, head: &RequestHead) -> (r: Result<HttpResponse, Error>)
        ensures
            r == self.spec_respond(*head),
    ;
}

/// A transport response converts to itself; this conversion never fails.
impl Responder for HttpResponse {
    open spec fn spec_respond(self, head: RequestHead) -> Result<HttpResponse, Error> {
        Ok(self)
    }

    fn respond_to(self, _head: &RequestHead) -> Result<HttpResponse, Error> {
        Ok(self)
    }
}

/// A numeric output subject to a bound fixed by the handler: conversion
/// renders the value when it is within the bound and fails otherwise.
#[derive(Clone, Copy, Debug, PartialEq, Eq)]
pub struct BoundedValue {
    pub value: u64,
    pub limit: u64,
}

impl Responder for BoundedValue {
    open spec fn spec_respond(self, head: RequestHead) -> Result<HttpResponse, Error> {
        if self.value <= self.limit {
            Ok(HttpResponse { status: 200, body: ResponseBody::Number(self.value) })
        } else {
            Err(Error::Convert(ConvertError::ValueTooLarge))
        }
    }

    fn respond_to(self, _head: &RequestHead) -> Result<HttpResponse, Error> {
        if self.value <= self.limit {
            Ok(HttpResponse { status: 200, body: ResponseBody::Number(self.value) })
        } else {
            Err(Error::Convert(ConvertError::ValueTooLarge))
        }
    }
}

/// A fallible handler output: a successful value converts as that value
/// would, and a handler failure is carried through as a handler error.
impl<R: Responder> Responder for Result<R, HandlerError> {
    open spec fn spec_respond(self, head: RequestHead) -> Result<HttpResponse, Error> {
        match self {
            Ok(value) => value.spec_respond(head),
            Err(e) => Err(Error::Handler(e)),
        }
    }

    fn respond_to(self, head: &RequestHead) -> Result<HttpResponse, Error> {
        match self {
            Ok(value) => value.respond_to(head),
            Err(e) => Err(Error::Handler(e)),
        }
    }
}

} // verus!
