//! Changing the failure of a computation with a one-shot function.

use vstd::prelude::*;
use crate::future::Future;
use crate::poll::{Async, Poll};

verus! {

/// A computation that reports what `A` reports, with a failure passed
/// through `F`.
#[derive(Debug)]
#[must_use]
pub struct MapErr<A, F> {
    future: A,
    f: Option<F>,
}

/// Maps the failure of `future` through `f`.
pub fn new<A, F>(future: A, f: F) -> (r: MapErr<A, F>)
    ensures
        r.inner() == future,
        r.function() == Some(f),
{
    MapErr { future, f: Some(f) }
}

impl<A, F> MapErr<A, F> {
    /// The wrapped computation.
    pub closed spec fn inner(&self) -> A {
        self.future
    }

    /// The transform, until it is used.
    pub closed spec fn function(&self) -> Option<F> {
        self.f
    }
}

/// `r` is `r0` with its failure, if any, passed through `f`.
pub open spec fn mapped_err<T, E, U, F: FnOnce(E) -> U>(f: F, r0: Poll<T, E>, r: Poll<T, U>) -> bool {
    match r0 {
        Ok(Async::NotReady) => r == Poll::<T, U>::Ok(Async::NotReady),
        Ok(Async::Ready(x)) => r == Poll::<T, U>::Ok(Async::Ready(x)),
        Err(e) => r matches Err(u) && f.ensures((e,), u),
    }
}

impl<Cx, A, U, F> Future<Cx> for MapErr<A, F> where A: Future<Cx>, F: FnOnce(A::Error) -> U {
    type Item = A::Item;

    type Error = U;

    open spec fn live(&self) -> bool {
        &&& self.inner().live()
        &&& self.function() is Some
        &&& forall|e: A::Error| #[trigger] self.function()->0.requires((e,))
    }

    open spec fn polled(self, next: Self, r: Poll<A::Item, U>) -> bool {
        exists|r0: Poll<A::Item, A::Error>|
            #[trigger] A::polled(self.inner(), next.inner(), r0) && mapped_err(self.function()->0, r0, r)
                && if r0 == Poll::<A::Item, A::Error>::Ok(Async::NotReady) {
                    next.function() == self.function()
                } else {
                    next.function() is None
                }
    }

    fn poll(&mut self, cx: &mut Cx) -> (r: Poll<A::Item, U>) {
        let ghost s0 = *self;
        let r0 = self.future.poll(cx);
        assert(A::polled(s0.inner(), self.inner(), r0));
        match r0 {
            Ok(Async::NotReady) => Ok(Async::NotReady),
            Ok(Async::Ready(x)) => {
                // The outcome is reported: the transform is not needed again.
                self.f = None;
                assert(A::polled(s0.inner(), self.inner(), r0));
                Ok(Async::Ready(x))
            },
            Err(e) => {
                let f = self.f.take().unwrap();
                assert(A::polled(s0.inner(), self.inner(), r0));
                Err(f(e))
            },
        }
    }
}

/// A map-error adapter is transparent: each of its polls is one poll of the
/// wrapped computation, whose "not ready" and success item it reports
/// unchanged, and whose failure it reports passed through the transform.
pub proof fn lemma_map_err_transparent<Cx, A, U, F>(m: MapErr<A, F>, next: MapErr<A, F>, r: Poll<A::Item, U>) where
    A: Future<Cx>,
    F: FnOnce(A::Error) -> U,

    requires
        <MapErr<A, F> as Future<Cx>>::polled(m, next, r),
    ensures
        exists|r0: Poll<A::Item, A::Error>| #[trigger] A::polled(m.inner(), next.inner(), r0) && {
            &&& r0 == Poll::<A::Item, A::Error>::Ok(Async::NotReady) ==> r == Poll::<A::Item, U>::Ok(Async::NotReady)
            &&& r0 matches Ok(Async::Ready(x)) ==> r == Poll::<A::Item, U>::Ok(Async::Ready(x))
            &&& r0 matches Err(e) ==> (r matches Err(u) && m.function()->0.ensures((e,), u))
        },
        r != Poll::<A::Item, U>::Ok(Async::NotReady) ==> !<MapErr<A, F> as Future<Cx>>::live(&next),
{
    let r0 = choose|r0: Poll<A::Item, A::Error>|
        #[trigger] A::polled(m.inner(), next.inner(), r0) && mapped_err(m.function()->0, r0, r)
            && if r0 == Poll::<A::Item, A::Error>::Ok(Async::NotReady) {
                next.function() == m.function()
            } else {
                next.function() is None
            };
    assert(A::polled(m.inner(), next.inner(), r0));
}

} // verus!
