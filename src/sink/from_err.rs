//! Changing the failure type of a consumer through `From`.

use vstd::prelude::*;
use crate::poll::{Poll, StartSend};
use crate::sink::Sink;
use crate::stream::Stream;

verus! {

/// A consumer that forwards everything to `S`, with a failure converted
/// into `E`.
#[derive(Debug)]
#[must_use]
pub struct SinkFromErr<S, E> {
    sink: S,
    f: core::marker::PhantomData<E>,
}

/// Converts the failures of `sink` into `E`.
pub fn new<S, E>(sink: S) -> (r: SinkFromErr<S, E>)
    ensures
        r.inner() == sink,
{
    SinkFromErr { sink, f: core::marker::PhantomData }
}

impl<S, E> SinkFromErr<S, E> {
    /// The wrapped consumer.
    pub closed spec fn inner(&self) -> S {
        self.sink
    }

    /// Get a shared reference to the inner sink.
    pub fn get_ref(&self) -> (r: &S)
        ensures
            *r == self.inner(),
    {
        &self.sink
    }

    /// Get a mutable reference to the inner sink.
    pub fn get_mut(&mut self) -> (r: &mut S)
        ensures
            *r == old(self).inner(),
            final(self).inner() == *final(r),
    {
        &mut self.sink
    }

    /// Consumes this combinator, returning the underlying sink.
    pub fn into_inner(self) -> (r: S)
        ensures
            r == self.inner(),
    {
        self.sink
    }
}

/// `r` is `r0` with its failure, if any, converted into `E`.
pub open spec fn converted<T, E0, E: From<E0>>(r0: Result<T, E0>, r: Result<T, E>) -> bool {
    match r0 {
        Ok(a) => r == Result::<T, E>::Ok(a),
        Err(e) => r matches Err(u) && call_ensures(E::from, (e,), u),
    }
}

impl<Cx, S: Sink<Cx>, E: From<S::SinkError>> Sink<Cx> for SinkFromErr<S, E> {
    type SinkItem = S::SinkItem;

    type SinkError = E;

    open spec fn wf_sink(&self) -> bool {
        self.inner().wf_sink()
    }

    open spec fn accepted(&self) -> Seq<S::SinkItem> {
        self.inner().accepted()
    }

    open spec fn is_full(&self) -> bool {
        self.inner().is_full()
    }

    open spec fn flushed(&self) -> bool {
        self.inner().flushed()
    }

    open spec fn closed(&self) -> bool {
        self.inner().closed()
    }

    fn start_send(&mut self, cx: &mut Cx, item: S::SinkItem) -> (r: StartSend<S::SinkItem, E>)
        ensures
            exists|r0: StartSend<S::SinkItem, S::SinkError>| #[trigger] converted(r0, r),
    {
        let r0 = self.sink.start_send(cx, item);
        let ghost g = r0;
        let r = match r0 {
            Ok(a) => Ok(a),
            Err(e) => Err(E::from(e)),
        };
        assert(converted(g, r));
        r
    }

    fn poll_complete(&mut self, cx: &mut Cx) -> (r: Poll<(), E>)
        ensures
            exists|r0: Poll<(), S::SinkError>| #[trigger] converted(r0, r),
    {
        let r0 = self.sink.poll_complete(cx);
        let ghost g = r0;
        let r = match r0 {
            Ok(a) => Ok(a),
            Err(e) => Err(E::from(e)),
        };
        assert(converted(g, r));
        r
    }

    fn close(&mut self, cx: &mut Cx) -> (r: Poll<(), E>)
        ensures
            exists|r0: Poll<(), S::SinkError>| #[trigger] converted(r0, r),
    {
        let r0 = self.sink.close(cx);
        let ghost g = r0;
        let r = match r0 {
            Ok(a) => Ok(a),
            Err(e) => Err(E::from(e)),
        };
        assert(converted(g, r));
        r
    }
}

impl<Cx, S: Stream<Cx>, E> Stream<Cx> for SinkFromErr<S, E> {
    type Item = S::Item;

    type Error = S::Error;

    open spec fn wf_stream(&self) -> bool {
        self.inner().wf_stream()
    }

    open spec fn polled(self, next: Self, r: Poll<Option<S::Item>, S::Error>) -> bool {
        S::polled(self.inner(), next.inner(), r)
    }

    fn poll(&mut self, cx: &mut Cx) -> (r: Poll<Option<S::Item>, S::Error>) {
        self.sink.poll(cx)
    }
}

} // verus!
