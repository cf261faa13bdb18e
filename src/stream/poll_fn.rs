//! A sequence made from a function that polls.

use vstd::prelude::*;
use crate::poll::Poll;
use crate::stream::Stream;

verus! {

/// A sequence whose poll calls the wrapped function.
#[derive(Debug)]
#[must_use]
pub struct PollFn<F> {
    inner: F,
}

/// Creates a sequence whose poll delegates to `f`.
pub fn poll_fn<Cx, T, E, F>(f: F) -> (r: PollFn<F>) where F: FnMut(&mut Cx) -> Poll<Option<T>, E>
    ensures
        r.function() == f,
{
    PollFn { inner: f }
}

impl<F> PollFn<F> {
    /// The wrapped function.
    pub closed spec fn function(&self) -> F {
        self.inner
    }
}

impl<Cx, T, E, F> Stream<Cx> for PollFn<F> where F: FnMut(&mut Cx) -> Poll<Option<T>, E> {
    type Item = T;

    type Error = E;

    open spec fn wf_stream(&self) -> bool {
        forall|cx: &mut Cx| #[trigger] self.function().requires((cx,))
    }

    /// The result is one the wrapped function may return.
    open spec fn polled(self, next: Self, r: Poll<Option<T>, E>) -> bool {
        &&& next == self
        &&& exists|c: &mut Cx| #[trigger] self.function().ensures((c,), r)
    }

    fn poll(&mut self, cx: &mut Cx) -> (r: Poll<Option<T>, E>) {
        assert(self.function().requires((cx,)));
        let r = (self.inner)(cx);
        assert(exists|c: &mut Cx| #[trigger] self.function().ensures((c,), r));
        r
    }
}

} // verus!
