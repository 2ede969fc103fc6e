//! The error taxonomy of the adaptation layer. Every failure is scoped to a
//! single request: extraction failures, failures surfaced by the handler's
//! own computation, and failures while converting the handler's output into
//! a transport response are all mapped into the pipeline's single generic
//! error type and returned as the failed outcome of the per-request future.

use vstd::prelude::*;

verus! {

/// An argument could not be produced from the inbound request.
#[derive(Clone, Copy, Debug, PartialEq, Eq)]
pub enum ExtractError {
    /// The request metadata carries no shared application value.
    MissingSharedData,
    /// The request body is not a well-formed encoding of the expected value.
    MalformedBody,
}

/// A failure surfaced by the handler's own computation. The adapter imposes
/// no interpretation on it beyond carrying its code through.
#[derive(Clone, Copy, Debug, PartialEq, Eq)]
pub enum HandlerError {
    Failed(u64),
}

/// The handler's successful output could not be turned into a transport
/// response.
#[derive(Clone, Copy, Debug, PartialEq, Eq)]
pub enum ConvertError {
    /// The value exceeds the bound the responder was configured with.
    ValueTooLarge,
}

/// The pipeline's single generic error type. All request-scoped failures
/// are mapped into it; no variant is ever recovered from locally.
#[derive(Clone, Copy, Debug, PartialEq, Eq)]
pub enum Error {
    Extract(ExtractError),
    Handler(HandlerError),
    Convert(ConvertError),
}

} // verus!
