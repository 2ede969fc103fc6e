//! The two future models the adapter must live between, and the bridge
//! that converts one into the other.
//!
//! A modern future suspends and resumes: each poll either reports that the
//! computation is still pending or hands out the final value. The legacy
//! future the dispatch pipeline drives is poll-based with a split outcome:
//! each poll returns "not ready", "ready with a value", or a failure. The
//! bridge owns exactly one inner future, forwards each external poll to it
//! exactly once, and translates the outcome; it never busy-polls and never
//! blocks, and once it has handed out the final result it may not be
//! polled again.
//!
//! A pending computation is modeled as the number of polls it still needs
//! before it resolves, together with the value it resolves to; waking is
//! delegated to whatever execution context drives the polls.

use vstd::prelude::*;

verus! {

/// The outcome of polling a modern future: still pending, or resolved with
/// the final value.
#[derive(Clone, Copy, Debug, PartialEq, Eq)]
pub enum FuturePoll<T> {
    Pending,
    Ready(T),
}

/// The outcome a legacy poll reports to its driver: no progress yet, or
/// finished with a value. A failed poll is the `Err` of the surrounding
/// `Result`, as the legacy contract splits success from failure.
#[derive(Clone, Copy, Debug, PartialEq, Eq)]
pub enum Async<T> {
    NotReady,
    Ready(T),
}

/// A modern future, modeled by how many polls it still needs before it
/// resolves and by the value it then hands out. The value is handed out
/// exactly once: after that, the future is spent (`output` is `None`) and
/// `is_live` no longer holds.
#[derive(Clone, Debug, PartialEq, Eq)]
pub struct SpawnedFuture<T> {
    pub delays: u64,
    pub output: Option<T>,
}

impl<T> SpawnedFuture<T> {
    /// Whether the future still holds its value: it has not yet resolved.
    pub open spec fn is_live(self) -> bool {
        self.output is Some
    }

    /// A future that resolves on its first poll.
    pub fn ready(output: T) -> (r: Self)
        ensures
            r.delays == 0,
            r.output == Some(output),
    {
        SpawnedFuture { delays: 0, output: Some(output) }
    }

    /// A future that reports pending for the given number of polls before
    /// resolving.
    pub fn delayed(delays: u64, output: T) -> (r: Self)
        ensures
            r.delays == delays,
            r.output == Some(output),
    {
        SpawnedFuture { delays, output: Some(output) }
    }

    /// Resume the future once. While the computation is still pending the
    /// poll reports so and makes one step of progress; when it completes,
    /// the final value is handed out and the future is spent.
    pub fn poll(&mut self) -> (r: FuturePoll<T>)
        requires
            old(self).is_live(),
        ensures
            old(self).delays > 0 ==> r is Pending
                && final(self).delays == old(self).delays - 1
                && final(self).output == old(self).output,
            old(self).delays == 0 ==> (old(self).output matches Some(v)
                && r == FuturePoll::Ready(v)
                && !final(self).is_live()
                && final(self).delays == 0),
    {
        if self.delays > 0 {
            self.delays = self.delays - 1;
            FuturePoll::Pending
        } else {
            let out = self.output.take();
            FuturePoll::Ready(out.unwrap())
        }
    }
}

/// The compatibility bridge: it owns one inner modern future whose output
/// is a success-or-failure outcome, and exposes the legacy poll contract
/// over it. Each external poll resumes the inner future exactly once. A
/// pending inner future is reported as `Ok(NotReady)` without blocking the
/// calling context — waking is the inner execution context's duty. A
/// resolved inner future has its outcome translated into the legacy shape
/// and handed out exactly once; a well-behaved driver never polls again
/// after that, and the contract forbids it.
#[derive(Clone, Debug, PartialEq, Eq)]
pub struct Compat<T, E> {
    pub inner: SpawnedFuture<Result<T, E>>,
}

impl<T, E> Compat<T, E> {
    /// Whether the bridged future has not yet handed out its result.
    pub open spec fn is_live(self) -> bool {
        self.inner.is_live()
    }

    /// Wrap a modern future into the legacy poll contract.
    pub fn new(inner: SpawnedFuture<Result<T, E>>) -> (r: Self)
        ensures
            r.inner == inner,
    {
        Compat { inner }
    }

    /// One legacy poll: forward to the inner future once and translate the
    /// outcome. Pending stays pending and consumes nothing; a resolved
    /// success becomes `Ok(Ready(..))` and a resolved failure becomes
    /// `Err(..)`, each exactly once.
    pub fn poll(&mut self) -> (r: Result<Async<T>, E>)
        requires
            old(self).is_live(),
        ensures
            old(self).inner.delays > 0 ==> (r == Ok::<Async<T>, E>(Async::NotReady)
                && final(self).is_live()
                && final(self).inner.delays == old(self).inner.delays - 1
                && final(self).inner.output == old(self).inner.output),
            old(self).inner.delays == 0 ==> (!final(self).is_live()
                && (old(self).inner.output matches Some(out) && (match out {
                    Ok(v) => r == Ok::<Async<T>, E>(Async::Ready(v)),
                    Err(e) => r == Err::<Async<T>, E>(e),
                }))),
    {
        match self.inner.poll() {
            FuturePoll::Pending => Ok(Async::NotReady),
            FuturePoll::Ready(out) => match out {
                Ok(v) => Ok(Async::Ready(v)),
                Err(e) => Err(e),
            },
        }
    }
}

} // verus!
