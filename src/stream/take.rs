//! The first items of a sequence, up to a count.

use vstd::prelude::*;
use crate::poll::{Async, Poll, StartSend};
use crate::sink::Sink;
use crate::stream::{end, Stream};

verus! {

/// A sequence of at most `remaining` more items of `S`.
#[derive(Debug)]
#[must_use]
pub struct Take<S> {
    stream: S,
    remaining: u64,
}

/// The first `amt` items of `s`.
pub fn new<S>(s: S, amt: u64) -> (r: Take<S>)
    ensures
        r.inner() == s,
        r.remaining() == amt,
{
    Take { stream: s, remaining: amt }
}

impl<S> Take<S> {
    /// How many more items may pass.
    pub closed spec fn remaining(&self) -> u64 {
        self.remaining
    }
}

impl<S> Take<S> {
    /// The wrapped stream.
    pub closed spec fn inner(&self) -> S {
        self.stream
    }

    /// This combinator with its wrapped stream replaced by `s`.
    pub closed spec fn with_inner(self, s: S) -> Self {
        Self { stream: s, ..self }
    }

    /// Acquires a reference to the underlying stream that this combinator
    /// is pulling from.
    pub fn get_ref(&self) -> (r: &S)
        ensures
            *r == self.inner(),
    {
        &self.stream
    }

    /// Acquires a mutable reference to the underlying stream that this
    /// combinator is pulling from.
    pub fn get_mut(&mut self) -> (r: &mut S)
        ensures
            *r == old(self).inner(),
            *final(self) == old(self).with_inner(*final(r)),
    {
        &mut self.stream
    }

    /// Consumes this combinator, returning the underlying stream.
    ///
    /// Any intermediate state of this combinator is dropped with it.
    pub fn into_inner(self) -> (r: S)
        ensures
            r == self.inner(),
    {
        self.stream
    }
}

impl<Cx, S: Stream<Cx>> Stream<Cx> for Take<S> {
    type Item = S::Item;

    type Error = S::Error;

    open spec fn wf_stream(&self) -> bool {
        self.inner().wf_stream()
    }

    /// Once no item may pass, the end, without polling `S`; otherwise one
    /// poll of `S`, whose end also ends this sequence.
    open spec fn polled(self, next: Self, r: Poll<Option<S::Item>, S::Error>) -> bool {
        if self.remaining() == 0 {
            r == end::<S::Item, S::Error>() && next == self
        } else {
            &&& S::polled(self.inner(), next.inner(), r)
            &&& next.remaining() == match r {
                Ok(Async::Ready(Some(_))) => (self.remaining() - 1) as u64,
                Ok(Async::Ready(None)) => 0,
                _ => self.remaining(),
            }
        }
    }

    fn poll(&mut self, cx: &mut Cx) -> (r: Poll<Option<S::Item>, S::Error>) {
        if self.remaining == 0 {
            Ok(Async::Ready(None))
        } else {
            let next = self.stream.poll(cx);
            match next {
                Ok(Async::Ready(Some(_))) => {
                    self.remaining = self.remaining - 1;
                },
                Ok(Async::Ready(None)) => {
                    self.remaining = 0;
                },
                _ => {},
            }
            next
        }
    }
}

impl<Cx, S> Sink<Cx> for Take<S> where S: Sink<Cx> {
    type SinkItem = S::SinkItem;

    type SinkError = S::SinkError;

    open spec fn wf_sink(&self) -> bool {
        self.inner().wf_sink()
    }

    open spec fn accepted(&self) -> Seq<S::SinkItem> {
        self.inner().accepted()
    }

    open spec fn is_full(&self) -> bool {
        self.inner().is_full()
    }

    open spec fn flushed(&self) -> bool {
        self.inner().flushed()
    }

    open spec fn closed(&self) -> bool {
        self.inner().closed()
    }

    fn start_send(&mut self, cx: &mut Cx, item: S::SinkItem) -> (r: StartSend<S::SinkItem, S::SinkError>) {
        self.stream.start_send(cx, item)
    }

    fn poll_complete(&mut self, cx: &mut Cx) -> (r: Poll<(), S::SinkError>) {
        self.stream.poll_complete(cx)
    }

    fn close(&mut self, cx: &mut Cx) -> (r: Poll<(), S::SinkError>) {
        self.stream.close(cx)
    }
}

} // verus!
