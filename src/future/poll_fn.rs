//! A computation made from a function that polls.

use vstd::prelude::*;
use crate::future::Future;
use crate::poll::Poll;

verus! {

/// A computation whose poll calls the wrapped function.
#[derive(Debug)]
#[must_use]
pub struct PollFn<F> {
    inner: F,
}

/// Creates a computation whose poll delegates to `f`.
pub fn poll_fn<Cx, T, E, F>(f: F) -> (r: PollFn<F>) where F: FnMut(&mut Cx) -> Poll<T, E>
    ensures
        r.function() == f,
{
    PollFn { inner: f }
}

impl<F> PollFn<F> {
    /// The wrapped function.
    pub closed spec fn function(&self) -> F {
        self.inner
    }
}

impl<Cx, T, E, F> Future<Cx> for PollFn<F> where F: FnMut(&mut Cx) -> Poll<T, E> {
    type Item = T;

    type Error = E;

    open spec fn live(&self) -> bool {
        forall|cx: &mut Cx| #[trigger] self.function().requires((cx,))
    }

    /// The result is one the wrapped function may return.
    open spec fn polled(self, next: Self, r: Poll<T, E>) -> bool {
        &&& next == self
        &&& exists|c: &mut Cx| #[trigger] self.function().ensures((c,), r)
    }

    fn poll(&mut self, cx: &mut Cx) -> (r: Poll<T, E>) {
        assert(self.function().requires((cx,)));
        let r = (self.inner)(cx);
        assert(exists|c: &mut Cx| #[trigger] self.function().ensures((c,), r));
        r
    }
}

} // verus!
