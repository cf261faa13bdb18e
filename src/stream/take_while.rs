//! The items of a sequence while a test on them holds.

use vstd::prelude::*;
use crate::future::Future;
use crate::poll::{Async, Poll, StartSend};
use crate::sink::Sink;
use crate::stream::{end, Stream};

verus! {

/// A sequence of the items of `S` up to the first one for which the
/// computation that `P` makes of it reports `false`; then the end.
#[derive(Debug)]
#[must_use]
pub struct TakeWhile<S, P, R, T> {
    stream: S,
    pred: P,
    pending: Option<(R, T)>,
    done_taking: bool,
}

/// The items of `s` while `p` holds.
pub fn new<S, P, R, T>(s: S, p: P) -> (r: TakeWhile<S, P, R, T>)
    ensures
        r.inner() == s,
        r.predicate() == p,
        r.pending() is None,
        !r.done_taking(),
{
    TakeWhile { stream: s, pred: p, pending: None, done_taking: false }
}

impl<S, P, R, T> TakeWhile<S, P, R, T> {
    /// The test.
    pub closed spec fn predicate(&self) -> P {
        self.pred
    }

    /// The test running on an item, with that item.
    pub closed spec fn pending(&self) -> Option<(R, T)> {
        self.pending
    }

    /// A test has failed: the sequence has ended.
    pub closed spec fn done_taking(&self) -> bool {
        self.done_taking
    }

    /// `p` may be applied to every item and makes live computations.
    pub open spec fn tests_live<Cx>(p: P) -> bool where P: FnMut(&T) -> R, R: Future<Cx> {
        &&& forall|x: &T| #[trigger] p.requires((x,))
        &&& forall|x: &T, r: R| #[trigger] p.ensures((x,), r) ==> r.live()
    }
}

impl<S, P, R, T> TakeWhile<S, P, R, T> {
    /// The wrapped stream.
    pub closed spec fn inner(&self) -> S {
        self.stream
    }

    /// This combinator with its wrapped stream replaced by `s`.
    pub closed spec fn with_inner(self, s: S) -> Self {
        Self { stream: s, ..self }
    }

    /// Acquires a reference to the underlying stream that this combinator
    /// is pulling from.
    pub fn get_ref(&self) -> (r: &S)
        ensures
            *r == self.inner(),
    {
        &self.stream
    }

    /// Acquires a mutable reference to the underlying stream that this
    /// combinator is pulling from.
    pub fn get_mut(&mut self) -> (r: &mut S)
        ensures
            *r == old(self).inner(),
            *final(self) == old(self).with_inner(*final(r)),
    {
        &mut self.stream
    }

    /// Consumes this combinator, returning the underlying stream.
    ///
    /// Any intermediate state of this combinator is dropped with it.
    pub fn into_inner(self) -> (r: S)
        ensures
            r == self.inner(),
    {
        self.stream
    }
}

impl<S, P, R, T> TakeWhile<S, P, R, T> {
    /// The test `test` on item `x` was polled once, leaving `next`: `true`
    /// passes `x` on; `false` ends the sequence for good; "not ready" keeps
    /// the test running; a failure is reported and drops the item.
    pub open spec fn tested<Cx>(test: R, x: T, next: Self, r: Poll<Option<T>, R::Error>) -> bool where R: Future<Cx, Item = bool> {
        exists|t2: R, rt: Poll<bool, R::Error>| #[trigger] R::polled(test, t2, rt) && match rt {
            Ok(Async::Ready(true)) => r == Poll::<Option<T>, R::Error>::Ok(Async::Ready(Some(x)))
                && next.pending() is None && !next.done_taking(),
            Ok(Async::Ready(false)) => r == end::<T, R::Error>() && next.done_taking(),
            Ok(Async::NotReady) => r == Poll::<Option<T>, R::Error>::Ok(Async::NotReady)
                && next.pending() == Some((t2, x)) && !next.done_taking(),
            Err(e) => r == Poll::<Option<T>, R::Error>::Err(e) && next.pending() is None && !next.done_taking(),
        }
    }
}

impl<Cx, S, P, R, T> Stream<Cx> for TakeWhile<S, P, R, T> where
    S: Stream<Cx, Item = T>,
    P: FnMut(&T) -> R,
    R: Future<Cx, Item = bool, Error = S::Error>,
 {
    type Item = T;

    type Error = S::Error;

    open spec fn wf_stream(&self) -> bool {
        &&& self.inner().wf_stream()
        &&& !self.done_taking() ==> (self.pending() matches Some(p) ==> p.0.live())
        &&& Self::tests_live::<Cx>(self.predicate())
    }

    /// Once a test has failed, the end on every poll, without polling `S`.
    /// Otherwise a running test is polled; with none running, `S` is polled
    /// first, and the test for an item it reports is started and polled at
    /// once. `S`'s "not ready", end and failure are passed on as they are.
    open spec fn polled(self, next: Self, r: Poll<Option<T>, S::Error>) -> bool {
        &&& next.predicate() == self.predicate()
        &&& if self.done_taking() {
            r == end::<T, S::Error>() && next == self
        } else {
            match self.pending() {
                Some(p) => next.inner() == self.inner() && Self::tested::<Cx>(p.0, p.1, next, r),
                None => {
                    ||| (r matches Ok(a) && !(a matches Async::Ready(Some(_)))
                        && next.pending() is None && !next.done_taking()
                        && S::polled(self.inner(), next.inner(), Poll::<Option<T>, S::Error>::Ok(a)))
                    ||| (r matches Err(e) && next.pending() is None && !next.done_taking()
                        && S::polled(self.inner(), next.inner(), Poll::<Option<T>, S::Error>::Err(e)))
                    ||| exists|x: T, test: R|
                        #[trigger] S::polled(self.inner(), next.inner(), Poll::<Option<T>, S::Error>::Ok(Async::Ready(Some(x))))
                        && #[trigger] self.predicate().ensures((&x,), test) && Self::tested::<Cx>(test, x, next, r)
                },
            }
        }
    }

    fn poll(&mut self, cx: &mut Cx) -> (r: Poll<Option<T>, S::Error>) {
        if self.done_taking {
            return Ok(Async::Ready(None));
        }
        let ghost s0 = *self;
        let ghost mut started: Option<(T, R)> = None;
        if self.pending.is_none() {
            let ghost st0 = self.stream;
            let rs = self.stream.poll(cx);
            assert(S::polled(st0, self.stream, rs));
            let item = match rs {
                Err(e) => {
                    return Err(e);
                },
                Ok(Async::NotReady) => {
                    return Ok(Async::NotReady);
                },
                Ok(Async::Ready(None)) => {
                    return Ok(Async::Ready(None));
                },
                Ok(Async::Ready(Some(e))) => e,
            };
            let test = (self.pred)(&item);
            assert(self.predicate().ensures((&item,), test));
            proof {
                started = Some((item, test));
            }
            self.pending = Some((test, item));
        }
        let ghost before = self.pending;
        let rp = match &mut self.pending {
            Some(pair) => pair.0.poll(cx),
            None => vstd::pervasive::unreached(),
        };
        assert(R::polled((before->0).0, (self.pending->0).0, rp));
        assert((self.pending->0).1 == (before->0).1);
        let r = match rp {
            Ok(Async::Ready(true)) => {
                let mut taken = None;
                core::mem::swap(&mut self.pending, &mut taken);
                match taken {
                    Some((_, item)) => Ok(Async::Ready(Some(item))),
                    None => vstd::pervasive::unreached(),
                }
            },
            Ok(Async::Ready(false)) => {
                self.done_taking = true;
                Ok(Async::Ready(None))
            },
            Ok(Async::NotReady) => Ok(Async::NotReady),
            Err(e) => {
                self.pending = None;
                Err(e)
            },
        };
        assert(Self::tested::<Cx>((before->0).0, (before->0).1, *self, r));
        proof {
            if let Some((x, test)) = started {
                assert(S::polled(s0.inner(), self.inner(), Poll::<Option<T>, S::Error>::Ok(Async::Ready(Some(x))))
                    && s0.predicate().ensures((&x,), test) && Self::tested::<Cx>(test, x, *self, r));
            }
        }
        r
    }
}

impl<Cx, S, P, R, T> Sink<Cx> for TakeWhile<S, P, R, T> where S: Sink<Cx> {
    type SinkItem = S::SinkItem;

    type SinkError = S::SinkError;

    open spec fn wf_sink(&self) -> bool {
        self.inner().wf_sink()
    }

    open spec fn accepted(&self) -> Seq<S::SinkItem> {
        self.inner().accepted()
    }

    open spec fn is_full(&self) -> bool {
        self.inner().is_full()
    }

    open spec fn flushed(&self) -> bool {
        self.inner().flushed()
    }

    open spec fn closed(&self) -> bool {
        self.inner().closed()
    }

    fn start_send(&mut self, cx: &mut Cx, item: S::SinkItem) -> (r: StartSend<S::SinkItem, S::SinkError>) {
        self.stream.start_send(cx, item)
    }

    fn poll_complete(&mut self, cx: &mut Cx) -> (r: Poll<(), S::SinkError>) {
        self.stream.poll_complete(cx)
    }

    fn close(&mut self, cx: &mut Cx) -> (r: Poll<(), S::SinkError>) {
        self.stream.close(cx)
    }
}

} // verus!
