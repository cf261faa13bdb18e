//! Looking at the item of a computation as it passes.

use vstd::prelude::*;
use crate::future::Future;
use crate::poll::{Async, Poll};

verus! {

/// A computation that reports what `A` reports, after handing a reference
/// to a success item to `F`.
#[derive(Debug)]
#[must_use]
pub struct Inspect<A, F> {
    future: A,
    f: Option<F>,
}

/// Calls `f` on the item of `future`.
pub fn new<A, F>(future: A, f: F) -> (r: Inspect<A, F>)
    ensures
        r.inner() == future,
        r.function() == Some(f),
{
    Inspect { future, f: Some(f) }
}

impl<A, F> Inspect<A, F> {
    /// The wrapped computation.
    pub closed spec fn inner(&self) -> A {
        self.future
    }

    /// The inspecting function, until it is used.
    pub closed spec fn function(&self) -> Option<F> {
        self.f
    }
}

impl<Cx, A, F> Future<Cx> for Inspect<A, F> where A: Future<Cx>, F: FnOnce(&A::Item) {
    type Item = A::Item;

    type Error = A::Error;

    open spec fn live(&self) -> bool {
        &&& self.inner().live()
        &&& self.function() is Some
        &&& forall|x: &A::Item| #[trigger] self.function()->0.requires((x,))
    }

    /// What `A` reports, unchanged; a success item was first handed to the
    /// inspecting function, which is then used up.
    open spec fn polled(self, next: Self, r: Poll<A::Item, A::Error>) -> bool {
        &&& A::polled(self.inner(), next.inner(), r)
        &&& match r {
            Ok(Async::Ready(x)) => self.function()->0.ensures((&x,), ()) && next.function() is None,
            _ => next.function() == self.function(),
        }
    }

    fn poll(&mut self, cx: &mut Cx) -> (r: Poll<A::Item, A::Error>) {
        match self.future.poll(cx) {
            Ok(Async::NotReady) => Ok(Async::NotReady),
            Ok(Async::Ready(x)) => {
                let f = self.f.take().unwrap();
                f(&x);
                assert(f.ensures((&x,), ()));
                Ok(Async::Ready(x))
            },
            Err(e) => Err(e),
        }
    }
}

} // verus!
