//! A sequence without its first items.

use vstd::prelude::*;
use crate::poll::{Async, Poll, StartSend};
use crate::sink::Sink;
use crate::stream::{lemma_run_empty, lemma_run_push, run_then, yields_then, Stream};

verus! {

/// A sequence that drops the next `remaining` items of `S`, then passes
/// the rest.
#[derive(Debug)]
#[must_use]
pub struct Skip<S> {
    stream: S,
    remaining: u64,
}

/// `s` without its first `amt` items.
pub fn new<S>(s: S, amt: u64) -> (r: Skip<S>)
    ensures
        r.inner() == s,
        r.remaining() == amt,
{
    Skip { stream: s, remaining: amt }
}

impl<S> Skip<S> {
    /// How many more items are to be dropped.
    pub closed spec fn remaining(&self) -> u64 {
        self.remaining
    }
}

impl<S> Skip<S> {
    /// The wrapped stream.
    pub closed spec fn inner(&self) -> S {
        self.stream
    }

    /// This combinator with its wrapped stream replaced by `s`.
    pub closed spec fn with_inner(self, s: S) -> Self {
        Self { stream: s, ..self }
    }

    /// Acquires a reference to the underlying stream that this combinator
    /// is pulling from.
    pub fn get_ref(&self) -> (r: &S)
        ensures
            *r == self.inner(),
    {
        &self.stream
    }

    /// Acquires a mutable reference to the underlying stream that this
    /// combinator is pulling from.
    pub fn get_mut(&mut self) -> (r: &mut S)
        ensures
            *r == old(self).inner(),
            *final(self) == old(self).with_inner(*final(r)),
    {
        &mut self.stream
    }

    /// Consumes this combinator, returning the underlying stream.
    ///
    /// Any intermediate state of this combinator is dropped with it.
    pub fn into_inner(self) -> (r: S)
        ensures
            r == self.inner(),
    {
        self.stream
    }
}

impl<Cx, S: Stream<Cx>> Stream<Cx> for Skip<S> {
    type Item = S::Item;

    type Error = S::Error;

    open spec fn wf_stream(&self) -> bool {
        self.inner().wf_stream()
    }

    /// One call polls `S` in turn: the items it reports are dropped, one
    /// per item left to drop, and the first poll that reports anything
    /// else, or any poll once none is left to drop, gives the result.
    open spec fn polled(self, next: Self, r: Poll<Option<S::Item>, S::Error>) -> bool {
        exists|dropped: Seq<S::Item>| #[trigger] run_then::<Cx, S>(self.inner(), dropped, r, next.inner())
            && dropped.len() == self.remaining() - next.remaining()
            && (r matches Ok(Async::Ready(Some(_))) ==> next.remaining() == 0)
    }

    fn poll(&mut self, cx: &mut Cx) -> (r: Poll<Option<S::Item>, S::Error>) {
        let ghost mut dropped: Seq<S::Item> = Seq::empty();
        proof {
            lemma_run_empty::<Cx, S>(self.stream);
        }
        while self.remaining > 0
            invariant
                self.inner().wf_stream(),
                self.remaining <= old(self).remaining,
                yields_then::<Cx, S>(old(self).inner(), dropped, self.inner()),
                dropped.len() == old(self).remaining - self.remaining,
            decreases self.remaining,
        {
            let ghost s0 = self.stream;
            let r = self.stream.poll(cx);
            assert(S::polled(s0, self.stream, r));
            match r {
                Ok(Async::Ready(Some(x))) => {
                    self.remaining = self.remaining - 1;
                    proof {
                        lemma_run_push::<Cx, S>(old(self).inner(), dropped, s0, x, self.stream);
                        dropped = dropped.push(x);
                    }
                },
                _ => {
                    assert(run_then::<Cx, S>(old(self).inner(), dropped, r, self.inner()));
                    return r;
                },
            }
        }
        let ghost s0 = self.stream;
        let r = self.stream.poll(cx);
        assert(S::polled(s0, self.stream, r));
        assert(run_then::<Cx, S>(old(self).inner(), dropped, r, self.inner()));
        r
    }
}

impl<Cx, S> Sink<Cx> for Skip<S> where S: Sink<Cx> {
    type SinkItem = S::SinkItem;

    type SinkError = S::SinkError;

    open spec fn wf_sink(&self) -> bool {
        self.inner().wf_sink()
    }

    open spec fn accepted(&self) -> Seq<S::SinkItem> {
        self.inner().accepted()
    }

    open spec fn is_full(&self) -> bool {
        self.inner().is_full()
    }

    open spec fn flushed(&self) -> bool {
        self.inner().flushed()
    }

    open spec fn closed(&self) -> bool {
        self.inner().closed()
    }

    fn start_send(&mut self, cx: &mut Cx, item: S::SinkItem) -> (r: StartSend<S::SinkItem, S::SinkError>) {
        self.stream.start_send(cx, item)
    }

    fn poll_complete(&mut self, cx: &mut Cx) -> (r: Poll<(), S::SinkError>) {
        self.stream.poll_complete(cx)
    }

    fn close(&mut self, cx: &mut Cx) -> (r: Poll<(), S::SinkError>) {
        self.stream.close(cx)
    }
}

} // verus!
