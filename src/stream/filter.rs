//! Keeping only the items of a sequence that pass a test.

use vstd::prelude::*;
use crate::poll::{Async, Poll, StartSend, POLL_BUDGET};
use crate::sink::Sink;
use crate::stream::{lemma_run_empty, lemma_run_push, run_then, yields_then, Stream};

verus! {

/// A sequence of the items of `S` for which `F` returns `true`.
#[derive(Debug)]
#[must_use]
pub struct Filter<S, F> {
    stream: S,
    f: F,
}

/// The items of `s` that pass `f`.
pub fn new<S, F>(s: S, f: F) -> (r: Filter<S, F>)
    ensures
        r.inner() == s,
        r.function() == f,
{
    Filter { stream: s, f }
}

impl<S, F> Filter<S, F> {
    /// The test.
    pub closed spec fn function(&self) -> F {
        self.f
    }
}

impl<S, F> Filter<S, F> {
    /// The wrapped stream.
    pub closed spec fn inner(&self) -> S {
        self.stream
    }

    /// This combinator with its wrapped stream replaced by `s`.
    pub closed spec fn with_inner(self, s: S) -> Self {
        Self { stream: s, ..self }
    }

    /// Acquires a reference to the underlying stream that this combinator
    /// is pulling from.
    pub fn get_ref(&self) -> (r: &S)
        ensures
            *r == self.inner(),
    {
        &self.stream
    }

    /// Acquires a mutable reference to the underlying stream that this
    /// combinator is pulling from.
    pub fn get_mut(&mut self) -> (r: &mut S)
        ensures
            *r == old(self).inner(),
            *final(self) == old(self).with_inner(*final(r)),
    {
        &mut self.stream
    }

    /// Consumes this combinator, returning the underlying stream.
    ///
    /// Any intermediate state of this combinator is dropped with it.
    pub fn into_inner(self) -> (r: S)
        ensures
            r == self.inner(),
    {
        self.stream
    }
}

impl<S, F> Filter<S, F> {
    /// The test rejected every item of `xs`.
    pub open spec fn all_rejected<Cx>(f: F, xs: Seq<S::Item>) -> bool where S: Stream<Cx>, F: FnMut(&S::Item) -> bool {
        forall|i: int| 0 <= i < xs.len() ==> #[trigger] f.ensures((&xs[i],), false)
    }
}

impl<Cx, S: Stream<Cx>, F: FnMut(&S::Item) -> bool> Stream<Cx> for Filter<S, F> {
    type Item = S::Item;

    type Error = S::Error;

    open spec fn wf_stream(&self) -> bool {
        &&& self.inner().wf_stream()
        &&& forall|x: &S::Item| #[trigger] self.function().requires((x,))
    }

    /// One call polls `S` in turn: the items the test rejects are dropped;
    /// the first item it accepts is passed on, and the first poll that
    /// reports anything other than an item is passed on as it is. The
    /// call also stops, reporting "not ready", after a budget of rejected
    /// items.
    open spec fn polled(self, next: Self, r: Poll<Option<S::Item>, S::Error>) -> bool {
        &&& next.function() == self.function()
        &&& exists|dropped: Seq<S::Item>| #[trigger] Self::all_rejected::<Cx>(self.function(), dropped) && {
            ||| run_then::<Cx, S>(self.inner(), dropped, r, next.inner())
                && (r matches Ok(Async::Ready(Some(x))) ==> self.function().ensures((&x,), true))
            ||| r == Poll::<Option<S::Item>, S::Error>::Ok(Async::NotReady) && dropped.len() == POLL_BUDGET
                && yields_then::<Cx, S>(self.inner(), dropped, next.inner())
        }
    }

    fn poll(&mut self, cx: &mut Cx) -> (r: Poll<Option<S::Item>, S::Error>) {
        let mut budget: usize = POLL_BUDGET;
        let ghost mut dropped: Seq<S::Item> = Seq::empty();
        proof {
            lemma_run_empty::<Cx, S>(self.stream);
        }
        loop
            invariant
                self.wf_stream(),
                self.function() == old(self).function(),
                dropped.len() == POLL_BUDGET - budget,
                Self::all_rejected::<Cx>(self.function(), dropped),
                yields_then::<Cx, S>(old(self).inner(), dropped, self.inner()),
            decreases budget,
        {
            if budget == 0 {
                return Ok(Async::NotReady);
            }
            budget = budget - 1;
            let ghost s0 = self.stream;
            let r = self.stream.poll(cx);
            assert(S::polled(s0, self.stream, r));
            match r {
                Ok(Async::Ready(Some(e))) => {
                    assert(self.function().requires((&e,)));
                    if (self.f)(&e) {
                        assert(run_then::<Cx, S>(old(self).inner(), dropped, r, self.inner()));
                        return Ok(Async::Ready(Some(e)));
                    }
                    proof {
                        lemma_run_push::<Cx, S>(old(self).inner(), dropped, s0, e, self.stream);
                        let d0 = dropped;
                        dropped = dropped.push(e);
                        assert forall|i: int| 0 <= i < dropped.len() implies #[trigger] self.function().ensures((&dropped[i],), false) by {
                            if i < d0.len() {
                                assert(dropped[i] == d0[i]);
                            }
                        }
                    }
                },
                _ => {
                    assert(run_then::<Cx, S>(old(self).inner(), dropped, r, self.inner()));
                    return r;
                },
            }
        }
    }
}

impl<Cx, S, F> Sink<Cx> for Filter<S, F> where S: Sink<Cx> {
    type SinkItem = S::SinkItem;

    type SinkError = S::SinkError;

    open spec fn wf_sink(&self) -> bool {
        self.inner().wf_sink()
    }

    open spec fn accepted(&self) -> Seq<S::SinkItem> {
        self.inner().accepted()
    }

    open spec fn is_full(&self) -> bool {
        self.inner().is_full()
    }

    open spec fn flushed(&self) -> bool {
        self.inner().flushed()
    }

    open spec fn closed(&self) -> bool {
        self.inner().closed()
    }

    fn start_send(&mut self, cx: &mut Cx, item: S::SinkItem) -> (r: StartSend<S::SinkItem, S::SinkError>) {
        self.stream.start_send(cx, item)
    }

    fn poll_complete(&mut self, cx: &mut Cx) -> (r: Poll<(), S::SinkError>) {
        self.stream.poll_complete(cx)
    }

    fn close(&mut self, cx: &mut Cx) -> (r: Poll<(), S::SinkError>) {
        self.stream.close(cx)
    }
}

} // verus!
