//! One-shot deferred computations and their combinators.

pub mod chain;

pub mod and_then;
pub mod or_else;
pub mod flatten;
pub mod map_err;
pub mod from_err;
pub mod inspect;
pub mod option;
pub mod poll_fn;
pub mod contain;

use vstd::prelude::*;
use crate::poll::{Async, Poll};


verus! {

/// A computation that reports exactly one outcome, a success item or a
/// failure, after being polled zero or more times.
///
/// The model of an implementation is given by two specification functions:
/// `live` holds while the computation may still be polled (it has not
/// reported its outcome), and `polled` relates the state before a poll, the
/// state after it and the result of that poll.
pub trait Future<Cx>: Sized {
    /// The success value.
    type Item;

    /// The failure value.
    type Error;

    /// The computation has not reported its outcome yet and may be polled.
    ///
    /// An implementation that says nothing may always be polled.
    open spec fn live(&self) -> bool {
        true
    }

    /// A poll may take `self` to `next` and return `r`.
    ///
    /// An implementation that says nothing promises nothing of a poll.
    open spec fn polled(self, next: Self, r: Poll<Self::Item, Self::Error>) -> bool {
        true
    }

    /// Makes as much progress as possible without blocking.
    ///
    /// `Ok(Async::NotReady)` leaves the computation live: the caller polls
    /// it again later. Any other result is the final outcome.
    fn poll(&mut self, cx: &mut Cx) -> (r: Poll<Self::Item, Self::Error>)
        requires
            old(self).live(),
        ensures
            Self::polled(*old(self), *final(self), r),
            r matches Ok(Async::NotReady) ==> final(self).live(),
    ;
}

/// `states` is a run of polls of a computation: polling `states[i]` took it
/// to `states[i + 1]` and reported `results[i]`.
pub open spec fn is_run<Cx, A: Future<Cx>>(states: Seq<A>, results: Seq<Poll<A::Item, A::Error>>) -> bool {
    &&& states.len() == results.len() + 1
    &&& forall|i: int| 0 <= i < results.len() ==> #[trigger] A::polled(states[i], states[i + 1], results[i])
}

} // verus!
