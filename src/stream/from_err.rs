//! Changing the failure type of a sequence through `From`.

use vstd::prelude::*;
use crate::poll::{Poll, StartSend};
use crate::sink::Sink;
use crate::stream::Stream;

verus! {

/// A sequence that reports what `S` reports, with a failure converted into
/// `E`.
#[derive(Debug)]
#[must_use]
pub struct FromErr<S, E> {
    stream: S,
    e: core::marker::PhantomData<E>,
}

/// Converts the failures of `stream` into `E`.
pub fn new<S, E>(stream: S) -> (r: FromErr<S, E>)
    ensures
        r.inner() == stream,
{
    FromErr { stream, e: core::marker::PhantomData }
}

impl<S, E> FromErr<S, E> {
    /// The wrapped stream.
    pub closed spec fn inner(&self) -> S {
        self.stream
    }

    /// This combinator with its wrapped stream replaced by `s`.
    pub closed spec fn with_inner(self, s: S) -> Self {
        Self { stream: s, ..self }
    }

    /// Acquires a reference to the underlying stream that this combinator
    /// is pulling from.
    pub fn get_ref(&self) -> (r: &S)
        ensures
            *r == self.inner(),
    {
        &self.stream
    }

    /// Acquires a mutable reference to the underlying stream that this
    /// combinator is pulling from.
    pub fn get_mut(&mut self) -> (r: &mut S)
        ensures
            *r == old(self).inner(),
            *final(self) == old(self).with_inner(*final(r)),
    {
        &mut self.stream
    }

    /// Consumes this combinator, returning the underlying stream.
    ///
    /// Any intermediate state of this combinator is dropped with it.
    pub fn into_inner(self) -> (r: S)
        ensures
            r == self.inner(),
    {
        self.stream
    }
}

impl<Cx, S: Stream<Cx>, E: From<S::Error>> Stream<Cx> for FromErr<S, E> {
    type Item = S::Item;

    type Error = E;

    open spec fn wf_stream(&self) -> bool {
        self.inner().wf_stream()
    }

    open spec fn polled(self, next: Self, r: Poll<Option<S::Item>, E>) -> bool {
        exists|r0: Poll<Option<S::Item>, S::Error>|
            #[trigger] S::polled(self.inner(), next.inner(), r0) && match r0 {
                Ok(a) => r == Poll::<Option<S::Item>, E>::Ok(a),
                Err(e) => r matches Err(u) && call_ensures(E::from, (e,), u),
            }
    }

    fn poll(&mut self, cx: &mut Cx) -> (r: Poll<Option<S::Item>, E>) {
        let ghost s0 = *self;
        let r0 = self.stream.poll(cx);
        assert(S::polled(s0.inner(), self.inner(), r0));
        match r0 {
            Ok(a) => Ok(a),
            Err(e) => Err(E::from(e)),
        }
    }
}

impl<Cx, S, E> Sink<Cx> for FromErr<S, E> where S: Sink<Cx> {
    type SinkItem = S::SinkItem;

    type SinkError = S::SinkError;

    open spec fn wf_sink(&self) -> bool {
        self.inner().wf_sink()
    }

    open spec fn accepted(&self) -> Seq<S::SinkItem> {
        self.inner().accepted()
    }

    open spec fn is_full(&self) -> bool {
        self.inner().is_full()
    }

    open spec fn flushed(&self) -> bool {
        self.inner().flushed()
    }

    open spec fn closed(&self) -> bool {
        self.inner().closed()
    }

    fn start_send(&mut self, cx: &mut Cx, item: S::SinkItem) -> (r: StartSend<S::SinkItem, S::SinkError>) {
        self.stream.start_send(cx, item)
    }

    fn poll_complete(&mut self, cx: &mut Cx) -> (r: Poll<(), S::SinkError>) {
        self.stream.poll_complete(cx)
    }

    fn close(&mut self, cx: &mut Cx) -> (r: Poll<(), S::SinkError>) {
        self.stream.close(cx)
    }
}

} // verus!
