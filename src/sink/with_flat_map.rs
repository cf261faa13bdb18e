//! Expanding each item into a sequence of items for a consumer.

use vstd::prelude::*;
use crate::poll::{Async, AsyncSink, Poll, StartSend, POLL_BUDGET};
use crate::sink::Sink;
use crate::stream::{end, lemma_run_empty, lemma_run_push, run_then, yields_then, Stream};

verus! {

/// A consumer of `U`s that turns each item into a sequence with `F` and
/// hands every item of that sequence to the wrapped consumer before it
/// accepts the next `U`.
pub struct WithFlatMap<S, U, F, St, T> {
    sink: S,
    f: F,
    stream: Option<St>,
    buffer: Option<T>,
    sent: Ghost<Seq<U>>,
}

/// Expands each item sent to the result through `f` before it reaches
/// `sink`.
pub fn new<S, U, F, St, T>(sink: S, f: F) -> (r: WithFlatMap<S, U, F, St, T>)
    ensures
        r.inner() == sink,
        r.function() == f,
        r.active() is None,
        r.held() is None,
        r.sent() == Seq::<U>::empty(),
{
    WithFlatMap { sink, f, stream: None, buffer: None, sent: Ghost(Seq::empty()) }
}

impl<S, U, F, St, T> WithFlatMap<S, U, F, St, T> {
    /// The wrapped consumer.
    pub closed spec fn inner(&self) -> S {
        self.sink
    }

    /// The transform.
    pub closed spec fn function(&self) -> F {
        self.f
    }

    /// The sub-sequence being drained, if any.
    pub closed spec fn active(&self) -> Option<St> {
        self.stream
    }

    /// An item the wrapped consumer rejected, to be offered again first.
    pub closed spec fn held(&self) -> Option<T> {
        self.buffer
    }

    /// Every item accepted so far.
    pub closed spec fn sent(&self) -> Seq<U> {
        self.sent@
    }

    /// Get a shared reference to the inner sink.
    pub fn get_ref(&self) -> (r: &S)
        ensures
            *r == self.inner(),
    {
        &self.sink
    }

    /// Get a mutable reference to the inner sink.
    pub fn get_mut(&mut self) -> (r: &mut S)
        ensures
            *r == old(self).inner(),
            final(self).inner() == *final(r),
            final(self).function() == old(self).function(),
            final(self).active() == old(self).active(),
            final(self).held() == old(self).held(),
            final(self).sent() == old(self).sent(),
    {
        &mut self.sink
    }

    /// Consumes this combinator, returning the underlying sink.
    ///
    /// A sub-sequence being drained is dropped with it.
    pub fn into_inner(self) -> (r: S)
        ensures
            r == self.inner(),
    {
        self.sink
    }

    /// The invariant: the wrapped consumer and the sub-sequence are well
    /// formed, and `f` may be applied to every item and yields well-formed
    /// sequences.
    pub open spec fn wf<Cx>(&self) -> bool where
        S: Sink<Cx, SinkItem = T>,
        F: FnMut(U) -> St,
        St: Stream<Cx, Item = T, Error = S::SinkError>,
     {
        &&& self.inner().wf_sink()
        &&& self.active() matches Some(st) ==> st.wf_stream()
        &&& Self::expands_wf::<Cx>(self.function())
    }

    /// `f` may be applied to every item and yields well-formed sequences.
    pub open spec fn expands_wf<Cx>(f: F) -> bool where F: FnMut(U) -> St, St: Stream<Cx> {
        &&& forall|u: U| #[trigger] f.requires((u,))
        &&& forall|u: U, st: St| #[trigger] f.ensures((u,), st) ==> st.wf_stream()
    }

    /// The sub-sequence `st0` was drained into the wrapped consumer, which
    /// had accepted `acc` before, leaving `next`: its polls reported the
    /// items `extra`, in order, which the wrapped consumer accepted, and
    /// then: its end (`Ready`, nothing left in flight); "not ready" (it
    /// stays); an item `y` that the wrapped consumer rejected (`y` is held,
    /// the sequence stays, the consumer is full); the budget of items ran
    /// out (it stays); or a failure, of the sequence or of the wrapped
    /// consumer.
    pub open spec fn drained_sub<Cx>(st0: St, acc: Seq<T>, extra: Seq<T>, next: Self, r: Poll<(), S::SinkError>) -> bool where
        S: Sink<Cx, SinkItem = T>,
        St: Stream<Cx, Item = T, Error = S::SinkError>,
     {
        ||| r is Err
        ||| next.inner().accepted() == acc + extra && {
            ||| r == Poll::<(), S::SinkError>::Ok(Async::Ready(())) && next.active() is None && next.held() is None
                && exists|t: St| #[trigger] run_then::<Cx, St>(st0, extra, end::<T, St::Error>(), t)
            ||| r == Poll::<(), S::SinkError>::Ok(Async::NotReady) && next.held() is None
                && (next.active() matches Some(st)
                && run_then::<Cx, St>(st0, extra, Poll::<Option<T>, St::Error>::Ok(Async::NotReady), st))
            ||| r == Poll::<(), S::SinkError>::Ok(Async::NotReady) && next.inner().is_full()
                && (next.held() matches Some(y) && next.active() matches Some(st)
                && yields_then::<Cx, St>(st0, extra.push(y), st))
            ||| r == Poll::<(), S::SinkError>::Ok(Async::NotReady) && next.held() is None && extra.len() == POLL_BUDGET
                && (next.active() matches Some(st) && yields_then::<Cx, St>(st0, extra, st))
        }
    }

    /// The active sub-sequence, if any, was drained into the wrapped
    /// consumer, which had accepted `acc` before (see `drained_sub`). With
    /// no sequence active, nothing happens.
    pub open spec fn streamed<Cx>(active: Option<St>, acc: Seq<T>, next: Self, r: Poll<(), S::SinkError>) -> bool where
        S: Sink<Cx, SinkItem = T>,
        St: Stream<Cx, Item = T, Error = S::SinkError>,
     {
        match active {
            None => r == Poll::<(), S::SinkError>::Ok(Async::Ready(())) && next.inner().accepted() == acc
                && next.active() is None && next.held() is None,
            Some(st0) => Self::drained_from::<Cx>(st0, acc, next, r),
        }
    }

    /// Some items of `st0` were drained as `drained_sub` describes.
    pub open spec fn drained_from<Cx>(st0: St, acc: Seq<T>, next: Self, r: Poll<(), S::SinkError>) -> bool where
        S: Sink<Cx, SinkItem = T>,
        St: Stream<Cx, Item = T, Error = S::SinkError>,
     {
        exists|extra: Seq<T>| #[trigger] Self::drained_sub::<Cx>(st0, acc, extra, next, r)
    }

    /// One drain took `self` to `next` and reported `r`: the held item is
    /// offered first; if the wrapped consumer rejects it, it stays held and
    /// nothing else happens; otherwise the active sequence is drained.
    pub open spec fn forwarded<Cx>(self, next: Self, r: Poll<(), S::SinkError>) -> bool where
        S: Sink<Cx, SinkItem = T>,
        St: Stream<Cx, Item = T, Error = S::SinkError>,
     {
        &&& next.function() == self.function()
        &&& next.sent() == self.sent()
        &&& match self.held() {
            Some(x) => {
                ||| r is Err
                ||| r == Poll::<(), S::SinkError>::Ok(Async::NotReady) && next.held() == Some(x)
                    && next.active() == self.active() && next.inner().accepted() == self.inner().accepted()
                    && next.inner().is_full()
                ||| Self::streamed::<Cx>(self.active(), self.inner().accepted().push(x), next, r)
            },
            None => Self::streamed::<Cx>(self.active(), self.inner().accepted(), next, r),
        }
    }

    /// Offers the held item, then the items of the sub-sequence, to the
    /// wrapped consumer; `Ready` once both are gone.
    fn try_empty_stream<Cx>(&mut self, cx: &mut Cx) -> (r: Poll<(), S::SinkError>) where
        S: Sink<Cx, SinkItem = T>,
        F: FnMut(U) -> St,
        St: Stream<Cx, Item = T, Error = S::SinkError>,

        requires
            old(self).wf::<Cx>(),
        ensures
            final(self).wf::<Cx>(),
            old(self).forwarded::<Cx>(*final(self), r),
            r matches Ok(Async::Ready(_)) ==> final(self).active() is None && final(self).held() is None,
            r matches Ok(Async::NotReady) ==> final(self).active() is Some || final(self).held() is Some,
    {
        let ghost s0 = *self;
        let mut held = None;
        core::mem::swap(&mut self.buffer, &mut held);
        if let Some(x) = held {
            match self.sink.start_send(cx, x) {
                Err(e) => {
                    return Err(e);
                },
                Ok(AsyncSink::NotReady(x)) => {
                    self.buffer = Some(x);
                    return Ok(Async::NotReady);
                },
                Ok(AsyncSink::Ready) => {},
            }
        }
        let ghost acc1 = self.sink.accepted();
        assert(s0.held() matches Some(x) ==> acc1 == s0.inner().accepted().push(x));
        assert(s0.held() is None ==> acc1 == s0.inner().accepted());
        let mut active = None;
        core::mem::swap(&mut self.stream, &mut active);
        if let Some(mut stream) = active {
            let mut budget: usize = POLL_BUDGET;
            let ghost mut extra: Seq<T> = Seq::empty();
            let ghost st_start = stream;
            proof {
                lemma_run_empty::<Cx, St>(stream);
            }
            loop
                invariant
                    self.wf::<Cx>(),
                    stream.wf_stream(),
                    self.stream is None,
                    self.buffer is None,
                    self.function() == s0.function(),
                    self.sent() == s0.sent(),
                    self.sink.accepted() == acc1 + extra,
                    s0 == *old(self),
                    s0.active() is Some,
                    s0.held() matches Some(x) ==> acc1 == s0.inner().accepted().push(x),
                    s0.held() is None ==> acc1 == s0.inner().accepted(),
                    s0.active() == Some(st_start),
                    yields_then::<Cx, St>(st_start, extra, stream),
                    extra.len() == POLL_BUDGET - budget,
                decreases budget,
            {
                if budget == 0 {
                    self.stream = Some(stream);
                    assert(Self::drained_sub::<Cx>(st_start, acc1, extra, *self, Ok(Async::NotReady)));
                    return Ok(Async::NotReady);
                }
                budget = budget - 1;
                let ghost st0 = stream;
                let rs = stream.poll(cx);
                match rs {
                    Err(e) => {
                        assert(Self::drained_sub::<Cx>(st_start, acc1, extra, *self, Err(e)));
                        return Err(e);
                    },
                    Ok(Async::NotReady) => {
                        assert(St::polled(st0, stream, rs));
                        assert(run_then::<Cx, St>(st_start, extra, rs, stream));
                        self.stream = Some(stream);
                        assert(Self::drained_sub::<Cx>(st_start, acc1, extra, *self, Ok(Async::NotReady)));
                        return Ok(Async::NotReady);
                    },
                    Ok(Async::Ready(None)) => {
                        assert(St::polled(st0, stream, rs));
                        assert(run_then::<Cx, St>(st_start, extra, rs, stream));
                        assert(Self::drained_sub::<Cx>(st_start, acc1, extra, *self, Ok(Async::Ready(()))));
                        return Ok(Async::Ready(()));
                    },
                    Ok(Async::Ready(Some(x))) => {
                        assert(St::polled(st0, stream, rs));
                        proof {
                            lemma_run_push::<Cx, St>(st_start, extra, st0, x, stream);
                        }
                        match self.sink.start_send(cx, x) {
                            Err(e) => {
                                assert(Self::drained_sub::<Cx>(st_start, acc1, extra, *self, Err(e)));
                                return Err(e);
                            },
                            Ok(AsyncSink::NotReady(x)) => {
                                self.stream = Some(stream);
                                self.buffer = Some(x);
                                assert(Self::drained_sub::<Cx>(st_start, acc1, extra, *self, Ok(Async::NotReady)));
                                return Ok(Async::NotReady);
                            },
                            Ok(AsyncSink::Ready) => {
                                proof {
                                    let e0 = extra;
                                    extra = extra.push(x);
                                    assert(acc1 + extra =~= (acc1 + e0).push(x));
                                }
                            },
                        }
                    },
                }
            }
        }
        Ok(Async::Ready(()))
    }
}

impl<Cx, S, U, F, St, T> Sink<Cx> for WithFlatMap<S, U, F, St, T> where
    S: Sink<Cx, SinkItem = T>,
    F: FnMut(U) -> St,
    St: Stream<Cx, Item = T, Error = S::SinkError>,
 {
    type SinkItem = U;

    type SinkError = S::SinkError;

    open spec fn wf_sink(&self) -> bool {
        self.wf::<Cx>()
    }

    open spec fn accepted(&self) -> Seq<U> {
        self.sent()
    }

    /// A held item or a sub-sequence is in flight.
    open spec fn is_full(&self) -> bool {
        self.active() is Some || self.held() is Some
    }

    /// Nothing is in flight and the wrapped consumer is flushed.
    open spec fn flushed(&self) -> bool {
        self.active() is None && self.held() is None && self.inner().flushed()
    }

    /// Nothing is in flight and the wrapped consumer is closed.
    open spec fn closed(&self) -> bool {
        self.active() is None && self.held() is None && self.inner().closed()
    }

    /// Drains what is in flight; accepts `i` only once nothing is, and then
    /// starts draining the sequence that `f` makes of it.
    fn start_send(&mut self, cx: &mut Cx, i: U) -> (r: StartSend<U, S::SinkError>)
        ensures
            r matches Ok(AsyncSink::NotReady(_)) ==> old(self).forwarded::<Cx>(*final(self), Poll::<(), S::SinkError>::Ok(Async::NotReady)),
            r matches Ok(AsyncSink::Ready) ==> exists|mid: Self, st: St, r2: Poll<(), S::SinkError>|
                #[trigger] old(self).forwarded::<Cx>(mid, Poll::<(), S::SinkError>::Ok(Async::Ready(())))
                && #[trigger] old(self).function().ensures((i,), st)
                && r2 is Ok && #[trigger] Self::streamed::<Cx>(Some(st), mid.inner().accepted(), *final(self), r2),
    {
        match self.try_empty_stream(cx) {
            Err(e) => {
                return Err(e);
            },
            Ok(Async::NotReady) => {
                return Ok(AsyncSink::NotReady(i));
            },
            Ok(Async::Ready(_)) => {},
        }
        let ghost mid = *self;
        let ghost u = i;
        let st = (self.f)(i);
        let ghost st0 = st;
        self.stream = Some(st);
        self.sent = Ghost(self.sent@.push(u));
        let ghost started = *self;
        match self.try_empty_stream(cx) {
            Err(e) => Err(e),
            Ok(a) => {
                assert(started.forwarded::<Cx>(*self, Poll::<(), S::SinkError>::Ok(a)));
                assert(started.held() is None && started.active() == Some(st0));
                assert(started.inner() == mid.inner());
                Ok(AsyncSink::Ready)
            },
        }
    }

    /// Drains what is in flight, then flushes the wrapped consumer.
    fn poll_complete(&mut self, cx: &mut Cx) -> (r: Poll<(), S::SinkError>)
        ensures
            r is Ok ==> exists|mid: Self, r0: Poll<(), S::SinkError>| #[trigger] old(self).forwarded::<Cx>(mid, r0)
                && r0 is Ok && final(self).inner().accepted() == mid.inner().accepted()
                && final(self).active() == mid.active() && final(self).held() == mid.held()
                && (r0 matches Ok(Async::NotReady) ==> *final(self) == mid),
    {
        let r0 = self.try_empty_stream(cx);
        let ghost mid = *self;
        match r0 {
            Err(e) => Err(e),
            Ok(Async::NotReady) => {
                assert(old(self).forwarded::<Cx>(mid, r0));
                Ok(Async::NotReady)
            },
            Ok(Async::Ready(_)) => {
                let r = self.sink.poll_complete(cx);
                assert(old(self).forwarded::<Cx>(mid, r0));
                r
            },
        }
    }

    /// Drains what is in flight, then closes the wrapped consumer: it is
    /// closed only once nothing is in flight.
    fn close(&mut self, cx: &mut Cx) -> (r: Poll<(), S::SinkError>)
        ensures
            r is Ok ==> exists|mid: Self, r0: Poll<(), S::SinkError>| #[trigger] old(self).forwarded::<Cx>(mid, r0)
                && r0 is Ok && final(self).inner().accepted() == mid.inner().accepted()
                && final(self).active() == mid.active() && final(self).held() == mid.held()
                && (r0 matches Ok(Async::NotReady) ==> *final(self) == mid),
    {
        let r0 = self.try_empty_stream(cx);
        let ghost mid = *self;
        match r0 {
            Err(e) => Err(e),
            Ok(Async::NotReady) => {
                assert(old(self).forwarded::<Cx>(mid, r0));
                Ok(Async::NotReady)
            },
            Ok(Async::Ready(_)) => {
                let r = self.sink.close(cx);
                assert(old(self).forwarded::<Cx>(mid, r0));
                r
            },
        }
    }
}

impl<Cx, S, U, F, St, T> Stream<Cx> for WithFlatMap<S, U, F, St, T> where S: Stream<Cx> {
    type Item = S::Item;

    type Error = S::Error;

    open spec fn wf_stream(&self) -> bool {
        self.inner().wf_stream()
    }

    open spec fn polled(self, next: Self, r: Poll<Option<S::Item>, S::Error>) -> bool {
        &&& S::polled(self.inner(), next.inner(), r)
        &&& next.function() == self.function()
        &&& next.active() == self.active()
        &&& next.held() == self.held()
        &&& next.sent() == self.sent()
    }

    fn poll(&mut self, cx: &mut Cx) -> (r: Poll<Option<S::Item>, S::Error>) {
        Stream::poll(&mut self.sink, cx)
    }
}

} // verus!
