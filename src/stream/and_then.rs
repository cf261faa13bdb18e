//! Running a computation on each item of a sequence.

use vstd::prelude::*;
use crate::future::Future;
use crate::future::and_then::selects_live;
use crate::poll::{Async, Poll, StartSend};
use crate::sink::Sink;
use crate::stream::{end, Stream};

verus! {

/// A sequence of the results of the computations that `F` makes of the
/// items of `S`, one at a time, in order.
#[derive(Debug)]
#[must_use]
pub struct AndThen<S, F, U> {
    stream: S,
    future: Option<U>,
    f: F,
}

/// Chains `f` onto each item of `s`.
pub fn new<S, F, U>(s: S, f: F) -> (r: AndThen<S, F, U>)
    ensures
        r.inner() == s,
        r.function() == f,
        r.running() is None,
{
    AndThen { stream: s, future: None, f }
}

impl<S, F, U> AndThen<S, F, U> {
    /// The function that makes a computation.
    pub closed spec fn function(&self) -> F {
        self.f
    }

    /// The computation running, if any.
    pub closed spec fn running(&self) -> Option<U> {
        self.future
    }

    /// The running computation `u` was polled once, leaving `next`: its
    /// item is reported and it is gone; its failure is reported and it is
    /// gone; or it is not ready and stays.
    pub open spec fn ran<Cx>(u: U, next: Self, r: Poll<Option<U::Item>, U::Error>) -> bool where U: Future<Cx> {
        exists|u2: U, ru: Poll<U::Item, U::Error>| #[trigger] U::polled(u, u2, ru) && match ru {
            Ok(Async::NotReady) => r == Poll::<Option<U::Item>, U::Error>::Ok(Async::NotReady) && next.running() == Some(u2),
            Ok(Async::Ready(v)) => r == Poll::<Option<U::Item>, U::Error>::Ok(Async::Ready(Some(v))) && next.running() is None,
            Err(e) => r == Poll::<Option<U::Item>, U::Error>::Err(e) && next.running() is None,
        }
    }

    /// With no computation running, `S` was polled once: "not ready", the
    /// end and a failure are reported as they are; an item `x` is handed to
    /// the function, and the computation it made is polled at once.
    pub open spec fn started<Cx>(self, next: Self, r: Poll<Option<U::Item>, U::Error>) -> bool where
        S: Stream<Cx>,
        F: FnMut(S::Item) -> U,
        U: Future<Cx, Error = S::Error>,
     {
        ||| r == Poll::<Option<U::Item>, U::Error>::Ok(Async::NotReady) && next.running() is None
            && S::polled(self.inner(), next.inner(), Poll::<Option<S::Item>, S::Error>::Ok(Async::NotReady))
        ||| r == end::<U::Item, U::Error>() && next.running() is None
            && S::polled(self.inner(), next.inner(), end::<S::Item, S::Error>())
        ||| (r matches Err(e) && next.running() is None
            && S::polled(self.inner(), next.inner(), Poll::<Option<S::Item>, S::Error>::Err(e)))
        ||| exists|x: S::Item, u: U|
            #[trigger] S::polled(self.inner(), next.inner(), Poll::<Option<S::Item>, S::Error>::Ok(Async::Ready(Some(x))))
            && #[trigger] self.function().ensures((x,), u) && Self::ran::<Cx>(u, next, r)
    }
}

impl<S, F, U> AndThen<S, F, U> {
    /// The wrapped stream.
    pub closed spec fn inner(&self) -> S {
        self.stream
    }

    /// This combinator with its wrapped stream replaced by `s`.
    pub closed spec fn with_inner(self, s: S) -> Self {
        Self { stream: s, ..self }
    }

    /// Acquires a reference to the underlying stream that this combinator
    /// is pulling from.
    pub fn get_ref(&self) -> (r: &S)
        ensures
            *r == self.inner(),
    {
        &self.stream
    }

    /// Acquires a mutable reference to the underlying stream that this
    /// combinator is pulling from.
    pub fn get_mut(&mut self) -> (r: &mut S)
        ensures
            *r == old(self).inner(),
            *final(self) == old(self).with_inner(*final(r)),
    {
        &mut self.stream
    }

    /// Consumes this combinator, returning the underlying stream.
    ///
    /// Any intermediate state of this combinator is dropped with it.
    pub fn into_inner(self) -> (r: S)
        ensures
            r == self.inner(),
    {
        self.stream
    }
}

impl<Cx, S, F, U> Stream<Cx> for AndThen<S, F, U> where
    S: Stream<Cx>,
    F: FnMut(S::Item) -> U,
    U: Future<Cx, Error = S::Error>,
 {
    type Item = U::Item;

    type Error = S::Error;

    open spec fn wf_stream(&self) -> bool {
        &&& self.inner().wf_stream()
        &&& self.running() matches Some(u) ==> u.live()
        &&& selects_live::<Cx, S::Item, U, F>(self.function())
    }

    /// One step: a running computation is polled, with `S` untouched; with
    /// none running, `S` is polled first (see `started`).
    open spec fn polled(self, next: Self, r: Poll<Option<U::Item>, S::Error>) -> bool {
        &&& next.function() == self.function()
        &&& match self.running() {
            Some(u) => next.inner() == self.inner() && Self::ran::<Cx>(u, next, r),
            None => self.started::<Cx>(next, r),
        }
    }

    fn poll(&mut self, cx: &mut Cx) -> (r: Poll<Option<U::Item>, S::Error>) {
        let ghost s0 = *self;
        let ghost mut started: Option<(S::Item, U)> = None;
        if self.future.is_none() {
            let ghost st0 = self.stream;
            let rs = self.stream.poll(cx);
            assert(S::polled(st0, self.stream, rs));
            let item = match rs {
                Err(e) => {
                    return Err(e);
                },
                Ok(Async::NotReady) => {
                    return Ok(Async::NotReady);
                },
                Ok(Async::Ready(None)) => {
                    return Ok(Async::Ready(None));
                },
                Ok(Async::Ready(Some(e))) => e,
            };
            let ghost x = item;
            let fut = (self.f)(item);
            assert(self.function().ensures((x,), fut));
            proof {
                started = Some((x, fut));
            }
            self.future = Some(fut);
        }
        let ghost running = self.future;
        let ru = match &mut self.future {
            Some(fut) => fut.poll(cx),
            None => vstd::pervasive::unreached(),
        };
        assert(U::polled(running->0, self.future->0, ru));
        let r = match ru {
            Ok(Async::Ready(e)) => {
                self.future = None;
                Ok(Async::Ready(Some(e)))
            },
            Err(e) => {
                self.future = None;
                Err(e)
            },
            Ok(Async::NotReady) => Ok(Async::NotReady),
        };
        assert(Self::ran::<Cx>(running->0, *self, r));
        proof {
            if let Some((x, u0)) = started {
                assert(S::polled(s0.inner(), self.inner(), Poll::<Option<S::Item>, S::Error>::Ok(Async::Ready(Some(x))))
                    && s0.function().ensures((x,), u0) && Self::ran::<Cx>(u0, *self, r));
            }
        }
        r
    }
}

impl<Cx, S, F, U> Sink<Cx> for AndThen<S, F, U> where S: Sink<Cx> {
    type SinkItem = S::SinkItem;

    type SinkError = S::SinkError;

    open spec fn wf_sink(&self) -> bool {
        self.inner().wf_sink()
    }

    open spec fn accepted(&self) -> Seq<S::SinkItem> {
        self.inner().accepted()
    }

    open spec fn is_full(&self) -> bool {
        self.inner().is_full()
    }

    open spec fn flushed(&self) -> bool {
        self.inner().flushed()
    }

    open spec fn closed(&self) -> bool {
        self.inner().closed()
    }

    fn start_send(&mut self, cx: &mut Cx, item: S::SinkItem) -> (r: StartSend<S::SinkItem, S::SinkError>) {
        self.stream.start_send(cx, item)
    }

    fn poll_complete(&mut self, cx: &mut Cx) -> (r: Poll<(), S::SinkError>) {
        self.stream.poll_complete(cx)
    }

    fn close(&mut self, cx: &mut Cx) -> (r: Poll<(), S::SinkError>) {
        self.stream.close(cx)
    }
}

} // verus!
