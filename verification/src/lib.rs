//! A handler adaptation layer: request-handling logic is written as plain
//! values of zero, one, or two typed arguments, while the surrounding
//! dispatch pipeline requires every handler to satisfy a poll-based service
//! contract. The crate adapts one to the other: it extracts typed arguments
//! from an inbound request, invokes the handler, converts the handler's
//! output into a transport response, and bridges the result into the legacy
//! poll-driven future shape the pipeline drives.

pub mod adapter;
pub mod endpoints;
pub mod error;
pub mod extract;
pub mod factory;
pub mod future;
pub mod http;
pub mod respond;
