//! Gathering every item of a sequence into a vector.

use vstd::prelude::*;
use crate::future::Future;
use crate::poll::{Async, Poll, POLL_BUDGET};
use crate::stream::{end, lemma_run_empty, lemma_run_push, run_then, yields_then, Stream};

verus! {

/// A computation that collects the items of `S`, in order, and finishes
/// with all of them when `S` ends.
#[derive(Debug)]
#[must_use]
pub struct Collect<S, T> {
    stream: S,
    items: Vec<T>,
}

/// Collects the items of `s`.
pub fn new<S, T>(s: S) -> (r: Collect<S, T>)
    ensures
        r.inner() == s,
        r.collected() == Seq::<T>::empty(),
{
    Collect { stream: s, items: Vec::new() }
}

impl<S, T> Collect<S, T> {
    /// The wrapped sequence.
    pub closed spec fn inner(&self) -> S {
        self.stream
    }

    /// The items gathered so far.
    pub closed spec fn collected(&self) -> Seq<T> {
        self.items@
    }

    /// Hands out the items gathered so far, leaving none.
    fn finish(&mut self) -> (r: Vec<T>)
        ensures
            r@ == old(self).collected(),
            final(self).collected() == Seq::<T>::empty(),
            final(self).inner() == old(self).inner(),
    {
        let mut items = Vec::new();
        core::mem::swap(&mut self.items, &mut items);
        items
    }
}

impl<S, T> Collect<S, T> {
    /// One poll took `self` to `next` and reported `r`, after the polls of
    /// `S` from `self.inner()` to `next.inner()` reported the items `extra`,
    /// in order, then: the end, and `r` holds everything gathered; "not
    /// ready", or the budget of items ran out, and `extra` joined what was
    /// gathered; or a failure, which is `r`, and what was gathered is
    /// dropped.
    pub open spec fn gathered<Cx>(self, next: Self, extra: Seq<T>, r: Poll<Vec<T>, S::Error>) -> bool where
        S: Stream<Cx, Item = T>,
     {
        match r {
            Ok(Async::Ready(v)) => v@ == self.collected() + extra && next.collected().len() == 0
                && run_then::<Cx, S>(self.inner(), extra, end::<T, S::Error>(), next.inner()),
            Ok(Async::NotReady) => next.collected() == self.collected() + extra && {
                ||| run_then::<Cx, S>(self.inner(), extra, Poll::<Option<T>, S::Error>::Ok(Async::NotReady), next.inner())
                ||| extra.len() == POLL_BUDGET && yields_then::<Cx, S>(self.inner(), extra, next.inner())
            },
            Err(e) => next.collected().len() == 0
                && run_then::<Cx, S>(self.inner(), extra, Poll::<Option<T>, S::Error>::Err(e), next.inner()),
        }
    }
}

impl<Cx, S, T> Future<Cx> for Collect<S, T> where S: Stream<Cx, Item = T> {
    type Item = Vec<T>;

    type Error = S::Error;

    open spec fn live(&self) -> bool {
        self.inner().wf_stream()
    }

    /// One call polls `S` in turn and gathers the items it reports, in
    /// order, until `S` ends, and then finishes with everything gathered;
    /// "not ready" and a failure of `S` are passed on (a failure drops what
    /// was gathered). See `gathered`.
    open spec fn polled(self, next: Self, r: Poll<Vec<T>, S::Error>) -> bool {
        exists|extra: Seq<T>| #[trigger] self.gathered::<Cx>(next, extra, r)
    }

    fn poll(&mut self, cx: &mut Cx) -> (r: Poll<Vec<T>, S::Error>) {
        let ghost start = self.items@;
        let ghost mut extra: Seq<T> = Seq::empty();
        let mut budget: usize = POLL_BUDGET;
        proof {
            lemma_run_empty::<Cx, S>(self.stream);
        }
        loop
            invariant
                self.inner().wf_stream(),
                start == old(self).items@,
                self.items@ == start + extra,
                extra.len() == POLL_BUDGET - budget,
                yields_then::<Cx, S>(old(self).inner(), extra, self.inner()),
            decreases budget,
        {
            if budget == 0 {
                assert(old(self).gathered::<Cx>(*self, extra, Ok(Async::NotReady)));
                return Ok(Async::NotReady);
            }
            budget = budget - 1;
            let ghost s0 = self.stream;
            let rs = self.stream.poll(cx);
            assert(S::polled(s0, self.stream, rs));
            match rs {
                Ok(Async::Ready(Some(e))) => {
                    self.items.push(e);
                    proof {
                        lemma_run_push::<Cx, S>(old(self).inner(), extra, s0, e, self.stream);
                        let e0 = extra;
                        extra = extra.push(e);
                        assert(start + extra =~= (start + e0).push(e));
                    }
                },
                Ok(Async::Ready(None)) => {
                    assert(run_then::<Cx, S>(old(self).inner(), extra, rs, self.inner()));
                    let v = self.finish();
                    assert(old(self).gathered::<Cx>(*self, extra, Ok(Async::Ready(v))));
                    return Ok(Async::Ready(v));
                },
                Ok(Async::NotReady) => {
                    assert(run_then::<Cx, S>(old(self).inner(), extra, rs, self.inner()));
                    assert(old(self).gathered::<Cx>(*self, extra, Ok(Async::NotReady)));
                    return Ok(Async::NotReady);
                },
                Err(e) => {
                    assert(run_then::<Cx, S>(old(self).inner(), extra, rs, self.inner()));
                    self.finish();
                    assert(old(self).gathered::<Cx>(*self, extra, Err(e)));
                    return Err(e);
                },
            }
        }
    }
}

} // verus!
