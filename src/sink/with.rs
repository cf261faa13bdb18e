//! Running each item through a computation before it reaches a consumer.

use vstd::prelude::*;
use crate::future::Future;
use crate::poll::{Async, AsyncSink, Poll, StartSend};
use crate::sink::Sink;
use crate::stream::Stream;

verus! {

/// Where the item in flight of a `With` stands.
#[derive(Debug)]
pub enum State<Fut, T> {
    /// Nothing is in flight.
    Empty,
    /// The computation for the last accepted item is running.
    Process(Fut),
    /// Its result waits for the wrapped consumer to accept it.
    Buffered(T),
}

impl<Fut, T> State<Fut, T> {
    /// Whether nothing is in flight.
    pub fn is_empty(&self) -> (r: bool)
        ensures
            r == (self is Empty),
    {
        if let State::Empty = *self {
            true
        } else {
            false
        }
    }

    /// How many steps are left before nothing is in flight.
    pub open spec fn stage(&self) -> nat {
        match self {
            State::Empty => 0,
            State::Buffered(_) => 1,
            State::Process(_) => 2,
        }
    }
}

/// A consumer of `U`s that turns each item into a computation with `F` and
/// hands the computation's result to the wrapped consumer. One item at a
/// time is in flight: a send is rejected until the previous item is through.
pub struct With<S, U, F, Fut, T> {
    sink: S,
    f: F,
    state: State<Fut, T>,
    sent: Ghost<Seq<U>>,
}

/// Runs each item sent to the result through `f` before it reaches `sink`.
pub fn new<S, U, F, Fut, T>(sink: S, f: F) -> (r: With<S, U, F, Fut, T>)
    ensures
        r.inner() == sink,
        r.function() == f,
        r.state() is Empty,
        r.sent() == Seq::<U>::empty(),
{
    With { state: State::Empty, sink, f, sent: Ghost(Seq::empty()) }
}

impl<S, U, F, Fut, T> With<S, U, F, Fut, T> {
    /// The wrapped consumer.
    pub closed spec fn inner(&self) -> S {
        self.sink
    }

    /// The transform.
    pub closed spec fn function(&self) -> F {
        self.f
    }

    /// The item in flight.
    pub closed spec fn state(&self) -> State<Fut, T> {
        self.state
    }

    /// Every item accepted so far.
    pub closed spec fn sent(&self) -> Seq<U> {
        self.sent@
    }

    /// Get a shared reference to the inner sink.
    pub fn get_ref(&self) -> (r: &S)
        ensures
            *r == self.inner(),
    {
        &self.sink
    }

    /// Get a mutable reference to the inner sink.
    pub fn get_mut(&mut self) -> (r: &mut S)
        ensures
            *r == old(self).inner(),
            final(self).inner() == *final(r),
            final(self).function() == old(self).function(),
            final(self).state() == old(self).state(),
            final(self).sent() == old(self).sent(),
    {
        &mut self.sink
    }

    /// Consumes this combinator, returning the underlying sink.
    ///
    /// An item in flight is dropped with it.
    pub fn into_inner(self) -> (r: S)
        ensures
            r == self.inner(),
    {
        self.sink
    }

    /// `f` may be applied to every item and returns live computations.
    pub open spec fn transforms_live<Cx>(f: F) -> bool where F: FnMut(U) -> Fut, Fut: Future<Cx> {
        &&& forall|u: U| #[trigger] f.requires((u,))
        &&& forall|u: U, fut: Fut| #[trigger] f.ensures((u,), fut) ==> fut.live()
    }

    /// The invariant: the wrapped consumer is well formed, a running
    /// computation is live, and the transform yields live computations.
    pub open spec fn wf<Cx>(&self) -> bool where
        S: Sink<Cx, SinkItem = T>,
        F: FnMut(U) -> Fut,
        Fut: Future<Cx, Item = T>,
     {
        &&& self.inner().wf_sink()
        &&& self.state() matches State::Process(fut) ==> fut.live()
        &&& Self::transforms_live::<Cx>(self.function())
    }

    /// `t` is an item that one poll of `fut` may produce.
    pub open spec fn produces<Cx>(fut: Fut, t: T) -> bool where Fut: Future<Cx, Item = T> {
        exists|f2: Fut| #[trigger] Fut::polled(fut, f2, Poll::<T, Fut::Error>::Ok(Async::Ready(t)))
    }

    /// A poll of `fut` failed with `e`.
    pub open spec fn failed<Cx>(fut: Fut, e: Fut::Error) -> bool where Fut: Future<Cx, Item = T> {
        exists|f2: Fut| #[trigger] Fut::polled(fut, f2, Poll::<T, Fut::Error>::Err(e))
    }

    /// `u` is the conversion with `From` of some failure of the wrapped
    /// consumer.
    pub open spec fn converted<Cx>(u: Fut::Error) -> bool where
        S: Sink<Cx, SinkItem = T>,
        Fut: Future<Cx, Item = T>,
        Fut::Error: From<S::SinkError>,
     {
        exists|e: S::SinkError| #[trigger] call_ensures(Fut::Error::from, (e,), u)
    }

    /// `fut` was polled, reported "not ready", and is left as `f2`.
    pub open spec fn stalled<Cx>(fut: Fut, f2: Fut) -> bool where Fut: Future<Cx, Item = T> {
        Fut::polled(fut, f2, Poll::<T, Fut::Error>::Ok(Async::NotReady))
    }

    /// The result `t` of the computation in flight was offered to the
    /// wrapped consumer, which took `self` to `next`: accepted, so that
    /// nothing is in flight and the wrapped consumer's accepted items grew
    /// by `t`; or rejected, so that `t` waits and the wrapped consumer is
    /// full; or the send failed, and its error, converted with `From`, is
    /// reported, with nothing in flight.
    pub open spec fn offered<Cx>(t: T, before: Self, next: Self, r: Poll<(), Fut::Error>) -> bool where
        S: Sink<Cx, SinkItem = T>,
        Fut: Future<Cx, Item = T>,
        Fut::Error: From<S::SinkError>,
     {
        ||| (r matches Err(u) && next.state() is Empty && Self::converted::<Cx>(u))
        ||| r == Poll::<(), Fut::Error>::Ok(Async::Ready(())) && next.state() is Empty
            && next.inner().accepted() == before.inner().accepted().push(t)
        ||| r == Poll::<(), Fut::Error>::Ok(Async::NotReady) && next.state() == State::<Fut, T>::Buffered(t)
            && next.inner().accepted() == before.inner().accepted() && next.inner().is_full()
    }

    /// One drive of the item in flight took `self` to `next` and reported
    /// `r`: with nothing in flight, nothing happens; a waiting result is
    /// offered to the wrapped consumer; a running computation is polled
    /// and, once it produced its result, that result is offered.
    pub open spec fn drove<Cx>(self, next: Self, r: Poll<(), Fut::Error>) -> bool where
        S: Sink<Cx, SinkItem = T>,
        Fut: Future<Cx, Item = T>,
        Fut::Error: From<S::SinkError>,
     {
        &&& next.function() == self.function()
        &&& next.sent() == self.sent()
        &&& match self.state() {
            State::Empty => r == Poll::<(), Fut::Error>::Ok(Async::Ready(())) && next == self,
            State::Buffered(t) => Self::offered::<Cx>(t, self, next, r),
            State::Process(fut) => {
                ||| (r matches Err(e) && next.state() is Empty && next.inner() == self.inner()
                    && Self::failed::<Cx>(fut, e))
                ||| r == Poll::<(), Fut::Error>::Ok(Async::NotReady) && next.inner() == self.inner()
                    && (next.state() matches State::Process(f2) && Self::stalled::<Cx>(fut, f2))
                ||| exists|t: T| #[trigger] Self::produces::<Cx>(fut, t) && Self::offered::<Cx>(t, self, next, r)
            },
        }
    }

    /// Drives the item in flight: runs its computation, then offers the
    /// result to the wrapped consumer. `Ready` once nothing is in flight.
    fn poll<Cx>(&mut self, cx: &mut Cx) -> (r: Poll<(), Fut::Error>) where
        S: Sink<Cx, SinkItem = T>,
        F: FnMut(U) -> Fut,
        Fut: Future<Cx, Item = T>,
        Fut::Error: From<S::SinkError>,

        requires
            old(self).wf::<Cx>(),
        ensures
            final(self).wf::<Cx>(),
            old(self).drove::<Cx>(*final(self), r),
            r matches Ok(Async::Ready(_)) ==> final(self).state() is Empty,
            r matches Ok(Async::NotReady) ==> !(final(self).state() is Empty),
    {
        let ghost s0 = *self;
        let mut state = State::Empty;
        core::mem::swap(&mut self.state, &mut state);
        let item = match state {
            State::Empty => {
                assert(*self == s0);
                return Ok(Async::Ready(()));
            },
            State::Buffered(t) => t,
            State::Process(mut fut) => {
                let ghost f0 = fut;
                let rf = fut.poll(cx);
                assert(Fut::polled(f0, fut, rf));
                match rf {
                    Err(e) => {
                        assert(Self::failed::<Cx>(f0, e));
                        return Err(e);
                    },
                    Ok(Async::NotReady) => {
                        self.state = State::Process(fut);
                        assert(Self::stalled::<Cx>(f0, fut));
                        return Ok(Async::NotReady);
                    },
                    Ok(Async::Ready(t)) => {
                        assert(Fut::polled(f0, fut, Poll::<T, Fut::Error>::Ok(Async::Ready(t))));
                        assert(Self::produces::<Cx>(f0, t));
                        t
                    },
                }
            },
        };
        let ghost t = item;
        let r = match self.sink.start_send(cx, item) {
            Err(e) => {
                let u = Fut::Error::from(e);
                assert(Self::converted::<Cx>(u));
                Err(u)
            },
            Ok(AsyncSink::NotReady(item)) => {
                self.state = State::Buffered(item);
                Ok(Async::NotReady)
            },
            Ok(AsyncSink::Ready) => Ok(Async::Ready(())),
        };
        assert(Self::offered::<Cx>(t, s0, *self, r));
        r
    }
}

impl<Cx, S, U, F, Fut, T> Sink<Cx> for With<S, U, F, Fut, T> where
    S: Sink<Cx, SinkItem = T>,
    F: FnMut(U) -> Fut,
    Fut: Future<Cx, Item = T>,
    Fut::Error: From<S::SinkError>,
 {
    type SinkItem = U;

    type SinkError = Fut::Error;

    open spec fn wf_sink(&self) -> bool {
        self.wf::<Cx>()
    }

    open spec fn accepted(&self) -> Seq<U> {
        self.sent()
    }

    /// An item is in flight.
    open spec fn is_full(&self) -> bool {
        !(self.state() is Empty)
    }

    /// Nothing is in flight and the wrapped consumer is flushed.
    open spec fn flushed(&self) -> bool {
        self.state() is Empty && self.inner().flushed()
    }

    /// Nothing is in flight and the wrapped consumer is closed.
    open spec fn closed(&self) -> bool {
        self.state() is Empty && self.inner().closed()
    }

    /// Drives the item in flight; accepts `item` only once nothing is in
    /// flight, and then starts its computation.
    fn start_send(&mut self, cx: &mut Cx, item: U) -> (r: StartSend<U, Fut::Error>)
        ensures
            r matches Ok(AsyncSink::NotReady(_)) ==> old(self).drove::<Cx>(*final(self), Poll::<(), Fut::Error>::Ok(Async::NotReady)),
            r matches Ok(AsyncSink::Ready) ==> exists|mid: Self| #[trigger] old(self).drove::<Cx>(mid, Poll::<(), Fut::Error>::Ok(Async::Ready(())))
                && final(self).inner() == mid.inner()
                && (final(self).state() matches State::Process(fut)
                && old(self).function().ensures((item,), fut)),
    {
        match self.poll(cx) {
            Err(e) => {
                return Err(e);
            },
            Ok(Async::NotReady) => {
                return Ok(AsyncSink::NotReady(item));
            },
            Ok(Async::Ready(_)) => {},
        }
        let ghost mid = *self;
        let ghost u = item;
        let fut = (self.f)(item);
        self.state = State::Process(fut);
        self.sent = Ghost(self.sent@.push(u));
        Ok(AsyncSink::Ready)
    }

    /// Drives the item in flight, then always flushes the wrapped consumer;
    /// `Ready` once both are done.
    fn poll_complete(&mut self, cx: &mut Cx) -> (r: Poll<(), Fut::Error>)
        ensures
            r is Ok ==> exists|mid: Self, r0: Poll<(), Fut::Error>| #[trigger] old(self).drove::<Cx>(mid, r0)
                && r0 is Ok && final(self).state() == mid.state()
                && final(self).inner().accepted() == mid.inner().accepted(),
            r matches Ok(Async::Ready(_)) ==> final(self).state() is Empty,
    {
        let me = self.poll(cx);
        let me_ready = match me {
            Err(e) => {
                return Err(e);
            },
            Ok(a) => a,
        };
        let ghost mid = *self;
        // Always flush the wrapped consumer, to make progress downstream.
        let r = match self.sink.poll_complete(cx) {
            Err(e) => Err(Fut::Error::from(e)),
            Ok(Async::NotReady) => Ok(Async::NotReady),
            Ok(Async::Ready(_)) => Ok(me_ready),
        };
        assert(old(self).drove::<Cx>(mid, me));
        r
    }

    /// Drives the item in flight through, then closes the wrapped consumer.
    fn close(&mut self, cx: &mut Cx) -> (r: Poll<(), Fut::Error>)
        ensures
            r is Ok ==> exists|mid: Self, r0: Poll<(), Fut::Error>| #[trigger] old(self).drove::<Cx>(mid, r0)
                && r0 is Ok && final(self).state() == mid.state()
                && final(self).inner().accepted() == mid.inner().accepted(),
            r matches Ok(Async::Ready(_)) ==> final(self).state() is Empty,
            r is Ok && !(final(self).state() is Empty) ==> final(self).inner() == old(self).inner()
                || exists|mid: Self| #[trigger] old(self).drove::<Cx>(mid, Poll::<(), Fut::Error>::Ok(Async::NotReady))
                    && final(self).inner() == mid.inner(),
    {
        let me = self.poll(cx);
        match me {
            Err(e) => {
                return Err(e);
            },
            Ok(Async::NotReady) => {
                assert(old(self).drove::<Cx>(*self, me));
                return Ok(Async::NotReady);
            },
            Ok(Async::Ready(_)) => {},
        }
        let ghost mid = *self;
        // The wrapped consumer is closed only once nothing is in flight.
        let r = match self.sink.close(cx) {
            Err(e) => Err(Fut::Error::from(e)),
            Ok(a) => Ok(a),
        };
        assert(old(self).drove::<Cx>(mid, me));
        r
    }
}

impl<Cx, S, U, F, Fut, T> Stream<Cx> for With<S, U, F, Fut, T> where S: Stream<Cx> {
    type Item = S::Item;

    type Error = S::Error;

    open spec fn wf_stream(&self) -> bool {
        self.inner().wf_stream()
    }

    open spec fn polled(self, next: Self, r: Poll<Option<S::Item>, S::Error>) -> bool {
        &&& S::polled(self.inner(), next.inner(), r)
        &&& next.function() == self.function()
        &&& next.state() == self.state()
        &&& next.sent() == self.sent()
    }

    fn poll(&mut self, cx: &mut Cx) -> (r: Poll<Option<S::Item>, S::Error>) {
        Stream::poll(&mut self.sink, cx)
    }
}

} // verus!
