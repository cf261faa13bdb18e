//! The results of a non-blocking poll and of a send.

use vstd::prelude::*;

verus! {

/// The outcome of a poll that did not fail: a value, or "not yet".
#[derive(Debug, PartialEq, Eq)]
pub enum Async<T> {
    /// The value is available.
    Ready(T),
    /// Nothing is available yet; the caller polls again later.
    NotReady,
}

impl<T> Async<T> {
    /// Whether the value is available.
    pub fn is_ready(&self) -> (r: bool)
        ensures
            r == (self is Ready),
    {
        match self {
            Async::Ready(_) => true,
            Async::NotReady => false,
        }
    }

    /// Whether nothing is available yet.
    pub fn is_not_ready(&self) -> (r: bool)
        ensures
            r == (self is NotReady),
    {
        match self {
            Async::Ready(_) => false,
            Async::NotReady => true,
        }
    }
}

/// The outcome of offering an item to a consumer.
#[derive(Debug, PartialEq, Eq)]
pub enum AsyncSink<T> {
    /// The item was accepted.
    Ready,
    /// The consumer is full for now: the item is handed back.
    NotReady(T),
}

impl<T> AsyncSink<T> {
    /// Whether the item was accepted.
    pub fn is_ready(&self) -> (r: bool)
        ensures
            r == (self is Ready),
    {
        match self {
            AsyncSink::Ready => true,
            AsyncSink::NotReady(_) => false,
        }
    }

    /// Whether the item was handed back.
    pub fn is_not_ready(&self) -> (r: bool)
        ensures
            r == (self is NotReady),
    {
        match self {
            AsyncSink::Ready => false,
            AsyncSink::NotReady(_) => true,
        }
    }
}

/// A bound on the inner polls of one call of a combinator whose loop would
/// otherwise run as long as the inner sequence keeps producing: it gives
/// such a loop a termination measure. When it runs out, the call reports
/// "not ready" and keeps its state, so the next call goes on.
pub const POLL_BUDGET: usize = usize::MAX;

/// What a poll returns: a value, "not yet", or a failure.
pub type Poll<T, E> = Result<Async<T>, E>;

/// What a send returns: accepted, handed back, or a failure.
pub type StartSend<T, E> = Result<AsyncSink<T>, E>;

} // verus!
