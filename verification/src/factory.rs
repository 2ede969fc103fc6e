//! The handler factory abstraction: the capability of being invoked with a
//! tuple of already-extracted typed arguments and producing a
//! response-convertible output. It is implemented once per supported arity
//! (zero, one, and two arguments); a handler value never rewrites its own
//! signature to match the pipeline's service contract.

use vstd::prelude::*;

use crate::extract::FromRequest;
use crate::respond::Responder;

verus! {

/// Async handler converter factory.
///
/// A handler is an immutable, cheaply duplicable value (`Copy`), so each
/// adapter produced for a new service slot carries an independent handler
/// and no synchronization is ever needed. `spec_call` states the exact
/// output of the handler on a given argument tuple, and `call` is bound to
/// it: invoking a handler through the factory capability returns exactly
/// what the handler returns when called directly.
pub trait AsyncFactory<T, U>: Sized + Copy where T: FromRequest, U: Responder {
    spec fn spec_call(&self, param: T) -> U;

    fn call(&self, param: T) -> (r: U)
        ensures
            r == self.spec_call(param),
    ;
}

} // verus!
