//! Changing the failure type of a computation through `From`.

use vstd::prelude::*;
use crate::future::Future;
use crate::poll::{Async, Poll};

verus! {

/// A computation that reports what `A` reports, with a failure converted
/// into `E`.
#[derive(Debug)]
#[must_use]
pub struct FromErr<A, E> {
    future: A,
    e: core::marker::PhantomData<E>,
}

/// Converts the failure of `future` into `E`.
pub fn new<A, E>(future: A) -> (r: FromErr<A, E>)
    ensures
        r.inner() == future,
{
    FromErr { future, e: core::marker::PhantomData }
}

impl<A, E> FromErr<A, E> {
    /// The wrapped computation.
    pub closed spec fn inner(&self) -> A {
        self.future
    }
}

impl<Cx, A, E> Future<Cx> for FromErr<A, E> where A: Future<Cx>, E: From<A::Error> {
    type Item = A::Item;

    type Error = E;

    open spec fn live(&self) -> bool {
        self.inner().live()
    }

    open spec fn polled(self, next: Self, r: Poll<A::Item, E>) -> bool {
        exists|r0: Poll<A::Item, A::Error>|
            #[trigger] A::polled(self.inner(), next.inner(), r0) && match r0 {
                Ok(Async::NotReady) => r == Poll::<A::Item, E>::Ok(Async::NotReady),
                Ok(Async::Ready(x)) => r == Poll::<A::Item, E>::Ok(Async::Ready(x)),
                Err(e) => r matches Err(u) && call_ensures(E::from, (e,), u),
            }
    }

    fn poll(&mut self, cx: &mut Cx) -> (r: Poll<A::Item, E>) {
        let ghost s0 = *self;
        let r0 = self.future.poll(cx);
        assert(A::polled(s0.inner(), self.inner(), r0));
        match r0 {
            Ok(Async::NotReady) => Ok(Async::NotReady),
            Ok(Async::Ready(x)) => Ok(Async::Ready(x)),
            Err(e) => Err(E::from(e)),
        }
    }
}

} // verus!
