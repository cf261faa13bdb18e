//! Running a computation for each item of a sequence, one after the other.

use vstd::prelude::*;
use crate::future::Future;
use crate::future::and_then::selects_live;
use crate::poll::{Async, Poll, POLL_BUDGET};
use crate::stream::{end, lemma_run_empty, lemma_run_push, run_then, yields_then, Stream};

verus! {

/// A computation that, for each item of `S` in turn, runs the computation
/// that `F` makes of it, and finishes when `S` ends.
#[derive(Debug)]
#[must_use]
pub struct ForEach<S, F, U> {
    stream: S,
    f: F,
    fut: Option<U>,
}

/// Runs `f` on each item of `s`.
pub fn new<S, F, U>(s: S, f: F) -> (r: ForEach<S, F, U>)
    ensures
        r.inner() == s,
        r.function() == f,
        r.running() is None,
{
    ForEach { stream: s, f, fut: None }
}

impl<S, F, U> ForEach<S, F, U> {
    /// The wrapped sequence.
    pub closed spec fn inner(&self) -> S {
        self.stream
    }

    /// The function that makes a computation of each item.
    pub closed spec fn function(&self) -> F {
        self.f
    }

    /// The computation running, if any.
    pub closed spec fn running(&self) -> Option<U> {
        self.fut
    }
}

impl<S, F, U> ForEach<S, F, U> {
    /// `u` is what a poll of some computation that reported "not ready" left.
    pub open spec fn waits<Cx>(u: U) -> bool where U: Future<Cx> {
        exists|u0: U| #[trigger] U::polled(u0, u, Poll::<U::Item, U::Error>::Ok(Async::NotReady))
    }

    /// Some poll of a computation of type `U` failed with `e`.
    pub open spec fn failed_with<Cx>(e: U::Error) -> bool where U: Future<Cx> {
        exists|u0: U, u1: U| #[trigger] U::polled(u0, u1, Poll::<U::Item, U::Error>::Err(e))
    }

    /// `x` was handed to `f`, which made a computation of it.
    pub open spec fn handed_to<Cx>(f: F, x: S::Item) -> bool where S: Stream<Cx>, F: FnMut(S::Item) -> U {
        exists|u: U| #[trigger] f.ensures((x,), u)
    }

    /// One call took `self` to `next` and reported `r`, while the polls of
    /// `S` from `self.inner()` to `next.inner()` reported the items `items`,
    /// in order, each handed to `F`; it stopped when: `S` ended (`Ready`,
    /// nothing running); a computation was not ready (it stays); `S` was
    /// not ready; the budget of items ran out; or a failure, of `S` (as it
    /// is) or of a computation.
    pub open spec fn went<Cx>(self, next: Self, items: Seq<S::Item>, r: Poll<(), S::Error>) -> bool where
        S: Stream<Cx>,
        F: FnMut(S::Item) -> U,
        U: Future<Cx, Item = (), Error = S::Error>,
     {
        &&& Self::all_handed::<Cx>(self.function(), items)
        &&& match r {
            Ok(Async::Ready(_)) => next.running() is None
                && run_then::<Cx, S>(self.inner(), items, end::<S::Item, S::Error>(), next.inner()),
            Ok(Async::NotReady) => {
                ||| (next.running() matches Some(u) && Self::waits::<Cx>(u))
                    && yields_then::<Cx, S>(self.inner(), items, next.inner())
                ||| next.running() is None
                    && run_then::<Cx, S>(self.inner(), items, Poll::<Option<S::Item>, S::Error>::Ok(Async::NotReady), next.inner())
                ||| items.len() == POLL_BUDGET && yields_then::<Cx, S>(self.inner(), items, next.inner())
            },
            Err(e) => next.running() is None && {
                ||| run_then::<Cx, S>(self.inner(), items, Poll::<Option<S::Item>, S::Error>::Err(e), next.inner())
                ||| Self::failed_with::<Cx>(e) && yields_then::<Cx, S>(self.inner(), items, next.inner())
            },
        }
    }

    /// Every item of `xs` was handed to `f`.
    pub open spec fn all_handed<Cx>(f: F, xs: Seq<S::Item>) -> bool where S: Stream<Cx>, F: FnMut(S::Item) -> U {
        forall|i: int| 0 <= i < xs.len() ==> #[trigger] Self::handed_to::<Cx>(f, xs[i])
    }
}

impl<Cx, S, F, U> Future<Cx> for ForEach<S, F, U> where
    S: Stream<Cx>,
    F: FnMut(S::Item) -> U,
    U: Future<Cx, Item = (), Error = S::Error>,
 {
    type Item = ();

    type Error = S::Error;

    open spec fn live(&self) -> bool {
        &&& self.inner().wf_stream()
        &&& self.running() matches Some(u) ==> u.live()
        &&& selects_live::<Cx, S::Item, U, F>(self.function())
    }

    /// One call drives the running computation, then pulls the next item
    /// and starts its computation, in turn; see `went`.
    open spec fn polled(self, next: Self, r: Poll<(), S::Error>) -> bool {
        &&& next.function() == self.function()
        &&& exists|items: Seq<S::Item>| #[trigger] self.went::<Cx>(next, items, r)
    }

    fn poll(&mut self, cx: &mut Cx) -> (r: Poll<(), S::Error>) {
        let mut budget: usize = POLL_BUDGET;
        let ghost mut handed: Seq<S::Item> = Seq::empty();
        proof {
            lemma_run_empty::<Cx, S>(self.stream);
        }
        loop
            invariant
                self.live(),
                self.function() == old(self).function(),
                handed.len() == POLL_BUDGET - budget,
                Self::all_handed::<Cx>(self.function(), handed),
                yields_then::<Cx, S>(old(self).inner(), handed, self.inner()),
            decreases budget,
        {
            if budget == 0 {
                assert(old(self).went::<Cx>(*self, handed, Ok(Async::NotReady)));
                return Ok(Async::NotReady);
            }
            budget = budget - 1;
            let mut running = None;
            core::mem::swap(&mut self.fut, &mut running);
            if let Some(mut fut) = running {
                let ghost f0 = fut;
                let rf = fut.poll(cx);
                assert(U::polled(f0, fut, rf));
                match rf {
                    Err(e) => {
                        assert(Self::failed_with::<Cx>(e));
                        assert(old(self).went::<Cx>(*self, handed, Err(e)));
                        return Err(e);
                    },
                    Ok(Async::NotReady) => {
                        self.fut = Some(fut);
                        assert(Self::waits::<Cx>(fut));
                        assert(old(self).went::<Cx>(*self, handed, Ok(Async::NotReady)));
                        return Ok(Async::NotReady);
                    },
                    Ok(Async::Ready(_)) => {},
                }
            }
            let ghost s0 = self.stream;
            let rs = self.stream.poll(cx);
            assert(S::polled(s0, self.stream, rs));
            match rs {
                Err(e) => {
                    assert(run_then::<Cx, S>(old(self).inner(), handed, rs, self.inner()));
                    assert(old(self).went::<Cx>(*self, handed, Err(e)));
                    return Err(e);
                },
                Ok(Async::NotReady) => {
                    assert(run_then::<Cx, S>(old(self).inner(), handed, rs, self.inner()));
                    assert(old(self).went::<Cx>(*self, handed, Ok(Async::NotReady)));
                    return Ok(Async::NotReady);
                },
                Ok(Async::Ready(None)) => {
                    assert(run_then::<Cx, S>(old(self).inner(), handed, rs, self.inner()));
                    assert(old(self).went::<Cx>(*self, handed, Ok(Async::Ready(()))));
                    return Ok(Async::Ready(()));
                },
                Ok(Async::Ready(Some(e))) => {
                    let ghost x = e;
                    let fut = (self.f)(e);
                    assert(Self::handed_to::<Cx>(self.function(), x));
                    self.fut = Some(fut);
                    proof {
                        lemma_run_push::<Cx, S>(old(self).inner(), handed, s0, x, self.stream);
                        let h0 = handed;
                        handed = handed.push(x);
                        assert forall|i: int| 0 <= i < handed.len() implies #[trigger] Self::handed_to::<Cx>(self.function(), handed[i]) by {
                            if i < h0.len() {
                                assert(handed[i] == h0[i]);
                            }
                        }
                    }
                },
            }
        }
    }
}

} // verus!
