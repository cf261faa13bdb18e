//! Flattening a sequence of sequences.

use vstd::prelude::*;
use crate::poll::{Async, Poll, StartSend, POLL_BUDGET};
use crate::sink::Sink;
use crate::stream::{end, lemma_run_empty, lemma_run_push, run_then, yields_then, Stream};

verus! {

/// A sequence of the items of each sequence that `S` produces, one sequence
/// after the other.
#[derive(Debug)]
#[must_use]
pub struct Flatten<S, T> {
    stream: S,
    next: Option<T>,
}

/// Flattens `s`.
pub fn new<S, T>(s: S) -> (r: Flatten<S, T>)
    ensures
        r.inner() == s,
        r.current() is None,
{
    Flatten { stream: s, next: None }
}

impl<S, T> Flatten<S, T> {
    /// The inner sequence being drained, if any.
    pub closed spec fn current(&self) -> Option<T> {
        self.next
    }
}

/// Every sequence that a poll of `S` may produce is well formed.
pub open spec fn yields_wf<Cx, S: Stream<Cx>>() -> bool where S::Item: Stream<Cx> {
    forall|s: S, s2: S, t: S::Item|
        #[trigger] S::polled(s, s2, Poll::<Option<S::Item>, S::Error>::Ok(Async::Ready(Some(t)))) ==> t.wf_stream()
}

impl<S, T> Flatten<S, T> {
    /// The wrapped stream.
    pub closed spec fn inner(&self) -> S {
        self.stream
    }

    /// This combinator with its wrapped stream replaced by `s`.
    pub closed spec fn with_inner(self, s: S) -> Self {
        Self { stream: s, ..self }
    }

    /// Acquires a reference to the underlying stream that this combinator
    /// is pulling from.
    pub fn get_ref(&self) -> (r: &S)
        ensures
            *r == self.inner(),
    {
        &self.stream
    }

    /// Acquires a mutable reference to the underlying stream that this
    /// combinator is pulling from.
    pub fn get_mut(&mut self) -> (r: &mut S)
        ensures
            *r == old(self).inner(),
            *final(self) == old(self).with_inner(*final(r)),
    {
        &mut self.stream
    }

    /// Consumes this combinator, returning the underlying stream.
    ///
    /// Any intermediate state of this combinator is dropped with it.
    pub fn into_inner(self) -> (r: S)
        ensures
            r == self.inner(),
    {
        self.stream
    }
}

impl<S, T> Flatten<S, T> {
    /// `t` is what one poll of the inner sequence that reported `rr` left:
    /// the current one if no inner sequence was pulled in this call, else
    /// the last one pulled.
    pub open spec fn from_current<Cx>(self, ts: Seq<T>, t: T, rr: Poll<Option<T::Item>, T::Error>) -> bool where T: Stream<Cx> {
        if ts.len() == 0 {
            self.current() matches Some(t0) && T::polled(t0, t, rr)
        } else {
            T::polled(ts.last(), t, rr)
        }
    }

    /// The polls of `S` in this call pulled `ts` and then failed with an
    /// error that, converted, is `e`.
    pub open spec fn outer_failed<Cx>(self, ts: Seq<T>, next: Self, e: T::Error) -> bool where
        S: Stream<Cx, Item = T>,
        T: Stream<Cx>,
        T::Error: From<S::Error>,
     {
        exists|e0: S::Error| #[trigger] run_then::<Cx, S>(self.inner(), ts, Poll::<Option<T>, S::Error>::Err(e0), next.inner())
            && call_ensures(T::Error::from, (e0,), e)
    }

    /// One call took `self` to `next` and reported `r`, while the polls of
    /// `S` from `self.inner()` to `next.inner()` pulled the inner sequences
    /// `ts`, in order: an item, "not ready" or a failure of the inner
    /// sequence polled last (the current one, or the last pulled) is
    /// reported as it is; the end, "not ready" or a failure of `S` (then
    /// converted) is reported when no inner sequence is left; the call also
    /// stops, reporting "not ready", once a budget of inner sequences ended.
    pub open spec fn went<Cx>(self, next: Self, ts: Seq<T>, r: Poll<Option<T::Item>, T::Error>) -> bool where
        S: Stream<Cx, Item = T>,
        T: Stream<Cx>,
        T::Error: From<S::Error>,
     {
        match r {
            Ok(Async::Ready(None)) => next.current() is None
                && run_then::<Cx, S>(self.inner(), ts, end::<T, S::Error>(), next.inner()),
            Ok(Async::Ready(Some(_))) => yields_then::<Cx, S>(self.inner(), ts, next.inner())
                && (next.current() matches Some(t) && self.from_current::<Cx>(ts, t, r)),
            Ok(Async::NotReady) => {
                ||| yields_then::<Cx, S>(self.inner(), ts, next.inner())
                    && (next.current() matches Some(t) && self.from_current::<Cx>(ts, t, r))
                ||| next.current() is None && run_then::<Cx, S>(self.inner(), ts,
                    Poll::<Option<T>, S::Error>::Ok(Async::NotReady), next.inner())
                ||| yields_then::<Cx, S>(self.inner(), ts, next.inner()) && ts.len() + 1 >= POLL_BUDGET
            },
            Err(e) => {
                ||| yields_then::<Cx, S>(self.inner(), ts, next.inner())
                    && (next.current() matches Some(t) && self.from_current::<Cx>(ts, t, r))
                ||| next.current() is None && self.outer_failed::<Cx>(ts, next, e)
            },
        }
    }
}

impl<Cx, S, T> Stream<Cx> for Flatten<S, T> where
    S: Stream<Cx, Item = T>,
    T: Stream<Cx>,
    T::Error: From<S::Error>,
 {
    type Item = T::Item;

    type Error = T::Error;

    open spec fn wf_stream(&self) -> bool {
        &&& self.inner().wf_stream()
        &&& self.current() matches Some(t) ==> t.wf_stream()
        &&& yields_wf::<Cx, S>()
    }

    /// One call polls the current inner sequence, pulling the next one
    /// from `S` when there is none; see `went`.
    open spec fn polled(self, next: Self, r: Poll<Option<T::Item>, T::Error>) -> bool {
        exists|ts: Seq<T>| #[trigger] self.went::<Cx>(next, ts, r)
    }

    fn poll(&mut self, cx: &mut Cx) -> (r: Poll<Option<T::Item>, T::Error>) {
        let mut budget: usize = POLL_BUDGET;
        let ghost mut ts: Seq<T> = Seq::empty();
        proof {
            lemma_run_empty::<Cx, S>(self.stream);
        }
        loop
            invariant
                self.wf_stream(),
                yields_then::<Cx, S>(old(self).inner(), ts, self.inner()),
                self.next is Some ==> ts.len() == 0 && self.next == old(self).next && budget == POLL_BUDGET,
                ts.len() + 1 >= POLL_BUDGET - budget,
            decreases budget,
        {
            if budget == 0 {
                assert(old(self).went::<Cx>(*self, ts, Ok(Async::NotReady)));
                return Ok(Async::NotReady);
            }
            budget = budget - 1;
            if self.next.is_none() {
                let ghost s0 = self.stream;
                let rs = self.stream.poll(cx);
                assert(S::polled(s0, self.stream, rs));
                match rs {
                    Err(e) => {
                        assert(run_then::<Cx, S>(old(self).inner(), ts, rs, self.inner()));
                        let u = T::Error::from(e);
                        assert(old(self).outer_failed::<Cx>(ts, *self, u));
                        assert(old(self).went::<Cx>(*self, ts, Err(u)));
                        return Err(u);
                    },
                    Ok(Async::NotReady) => {
                        assert(run_then::<Cx, S>(old(self).inner(), ts, rs, self.inner()));
                        assert(old(self).went::<Cx>(*self, ts, Ok(Async::NotReady)));
                        return Ok(Async::NotReady);
                    },
                    Ok(Async::Ready(None)) => {
                        assert(run_then::<Cx, S>(old(self).inner(), ts, rs, self.inner()));
                        assert(old(self).went::<Cx>(*self, ts, Ok(Async::Ready(None))));
                        return Ok(Async::Ready(None));
                    },
                    Ok(Async::Ready(Some(t))) => {
                        proof {
                            lemma_run_push::<Cx, S>(old(self).inner(), ts, s0, t, self.stream);
                            ts = ts.push(t);
                        }
                        self.next = Some(t);
                    },
                }
            }
            let ghost t0 = self.next->0;
            assert(ts.len() == 0 ==> old(self).current() == Some(t0));
            assert(ts.len() > 0 ==> ts.last() == t0);
            let rt = match &mut self.next {
                Some(t) => t.poll(cx),
                None => vstd::pervasive::unreached(),
            };
            assert(T::polled(t0, self.next->0, rt));
            assert(old(self).from_current::<Cx>(ts, self.next->0, rt));
            match rt {
                Ok(Async::Ready(None)) => {
                    self.next = None;
                },
                other => {
                    assert(old(self).went::<Cx>(*self, ts, other));
                    return other;
                },
            }
        }
    }
}

impl<Cx, S, T> Sink<Cx> for Flatten<S, T> where S: Sink<Cx> {
    type SinkItem = S::SinkItem;

    type SinkError = S::SinkError;

    open spec fn wf_sink(&self) -> bool {
        self.inner().wf_sink()
    }

    open spec fn accepted(&self) -> Seq<S::SinkItem> {
        self.inner().accepted()
    }

    open spec fn is_full(&self) -> bool {
        self.inner().is_full()
    }

    open spec fn flushed(&self) -> bool {
        self.inner().flushed()
    }

    open spec fn closed(&self) -> bool {
        self.inner().closed()
    }

    fn start_send(&mut self, cx: &mut Cx, item: S::SinkItem) -> (r: StartSend<S::SinkItem, S::SinkError>) {
        self.stream.start_send(cx, item)
    }

    fn poll_complete(&mut self, cx: &mut Cx) -> (r: Poll<(), S::SinkError>) {
        self.stream.poll_complete(cx)
    }

    fn close(&mut self, cx: &mut Cx) -> (r: Poll<(), S::SinkError>) {
        self.stream.close(cx)
    }
}

} // verus!
