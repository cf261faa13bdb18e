//! Running up to a fixed number of a sequence's computations at once.

use vstd::prelude::*;
use crate::future::Future;
use crate::poll::{Async, Poll, StartSend};
use crate::sink::Sink;
use crate::stream::fuse::{self, Fuse};
use crate::stream::futures_unordered::{lemma_pool_yields_each_once, yielded, FuturesUnordered};
use crate::stream::{end, lemma_run_empty, lemma_run_push, run_then, yields_then, Stream};

verus! {

/// A sequence that pulls computations from `S`, keeps at most `max` of
/// them in flight, and reports their results in the order in which they
/// finish.
#[derive(Debug)]
#[must_use]
pub struct BufferUnordered<S, F> {
    stream: Fuse<S>,
    queue: FuturesUnordered<F>,
    max: usize,
}

/// Runs up to `amt` computations of `s` at once.
pub fn new<S, F>(s: S, amt: usize) -> (r: BufferUnordered<S, F>)
    ensures
        r.source().inner() == s,
        !r.source().done(),
        r.in_flight().len() == 0,
        r.limit() == amt,
{
    BufferUnordered { stream: fuse::new(s), queue: FuturesUnordered::new(), max: amt }
}

/// Every computation that a poll of `S` may produce is live.
pub open spec fn yields_live<Cx, S: Stream<Cx>>() -> bool where S::Item: Future<Cx> {
    forall|s: S, s2: S, f: S::Item|
        #[trigger] S::polled(s, s2, Poll::<Option<S::Item>, S::Error>::Ok(Async::Ready(Some(f)))) ==> f.live()
}

impl<S, F> BufferUnordered<S, F> {
    /// The fused source of computations.
    pub closed spec fn source(&self) -> Fuse<S> {
        self.stream
    }

    /// The pool of computations in flight.
    pub closed spec fn pool(&self) -> FuturesUnordered<F> {
        self.queue
    }

    /// The computations in flight.
    pub closed spec fn in_flight(&self) -> Seq<F> {
        self.queue.members()
    }

    /// The most computations in flight at once.
    pub closed spec fn limit(&self) -> usize {
        self.max
    }

    /// Acquires a reference to the underlying stream that this combinator is
    /// pulling from.
    pub fn get_ref(&self) -> (r: &S)
        ensures
            *r == self.source().inner(),
    {
        self.stream.get_ref()
    }

    /// Acquires a mutable reference to the underlying stream that this
    /// combinator is pulling from.
    pub fn get_mut(&mut self) -> (r: &mut S)
        ensures
            *r == old(self).source().inner(),
            final(self).source().inner() == *final(r),
            final(self).source().done() == old(self).source().done(),
            final(self).in_flight() == old(self).in_flight(),
            final(self).limit() == old(self).limit(),
    {
        self.stream.get_mut()
    }

    /// Consumes this combinator, returning the underlying stream.
    ///
    /// Computations in flight are dropped with it.
    pub fn into_inner(self) -> (r: S)
        ensures
            r == self.source().inner(),
    {
        self.stream.into_inner()
    }
}

impl<S, F> BufferUnordered<S, F> {
    /// The polls of the fused source in one call went from `self.source()`
    /// to `src` and produced `pulled`, in order: either exactly as many as
    /// there was room for, or fewer, and then one more poll reported "not
    /// ready" or the end.
    pub open spec fn filled<Cx>(self, src: Fuse<S>, pulled: Seq<F>) -> bool where S: Stream<Cx, Item = F> {
        ||| pulled.len() == self.limit() - self.in_flight().len()
            && yields_then::<Cx, Fuse<S>>(self.source(), pulled, src)
        ||| exists|rl: Poll<Option<F>, S::Error>| #[trigger] run_then::<Cx, Fuse<S>>(self.source(), pulled, rl, src)
            && (rl == Poll::<Option<F>, S::Error>::Ok(Async::NotReady) || rl == end::<F, S::Error>())
    }

    /// The pool made of `members` was polled once and became `next_pool`;
    /// its result is reported as `r`, except that a pool with nothing left
    /// reports the end only once the source has ended (`done`), and "not
    /// ready" before.
    pub open spec fn pool_step<Cx>(members: Seq<F>, next_pool: FuturesUnordered<F>, done: bool, r: Poll<Option<F::Item>, F::Error>) -> bool where
        F: Future<Cx>,
     {
        exists|q: FuturesUnordered<F>, rq: Poll<Option<F::Item>, F::Error>|
            #[trigger] <FuturesUnordered<F> as Stream<Cx>>::polled(q, next_pool, rq) && q.members() == members && {
                if rq == end::<F::Item, F::Error>() {
                    r == if done { end::<F::Item, F::Error>() } else { Poll::<Option<F::Item>, F::Error>::Ok(Async::NotReady) }
                } else {
                    r == rq
                }
            }
    }

    /// One poll took `self` to `next` and reported `r`, after pulling the
    /// computations `pulled` from this source's own polls, in order, into
    /// the pool: at most as many as there was room for, and fewer only if
    /// the source stopped or failed. A failure of the source is reported as
    /// it is, with the pool holding the old members and those pulled;
    /// otherwise the pool so filled is polled once.
    pub open spec fn pulled_into<Cx>(self, next: Self, pulled: Seq<F>, r: Poll<Option<F::Item>, S::Error>) -> bool where
        S: Stream<Cx, Item = F>,
        F: Future<Cx, Error = S::Error>,
     {
        let mid = self.in_flight() + pulled;
        &&& pulled.len() <= self.limit() - self.in_flight().len()
        &&& {
            ||| (r matches Err(e) && next.in_flight() == mid
                && run_then::<Cx, Fuse<S>>(self.source(), pulled, Poll::<Option<F>, S::Error>::Err(e), next.source()))
            ||| self.filled::<Cx>(next.source(), pulled)
                && Self::pool_step::<Cx>(mid, next.pool(), next.source().done(), r)
        }
    }
}

impl<Cx, S, F> Stream<Cx> for BufferUnordered<S, F> where
    S: Stream<Cx, Item = F>,
    F: Future<Cx, Error = S::Error>,
 {
    type Item = F::Item;

    type Error = S::Error;

    /// The source is well formed and yields live computations, every
    /// computation in flight is live, and no more than `limit` are in flight.
    open spec fn wf_stream(&self) -> bool {
        &&& self.source().wf_stream()
        &&& self.pool().wf_stream()
        &&& self.in_flight().len() <= self.limit()
        &&& yields_live::<Cx, S>()
    }

    /// The computations pulled in this poll joined the pool, then the pool
    /// was polled once; see `pulled_into`.
    open spec fn polled(self, next: Self, r: Poll<Option<F::Item>, S::Error>) -> bool {
        &&& next.limit() == self.limit()
        &&& r == end::<F::Item, S::Error>() ==> next.source().done() && next.in_flight().len() == 0
        &&& r == Poll::<Option<F::Item>, S::Error>::Ok(Async::NotReady) ==> !(next.source().done() && next.in_flight().len() == 0)
        &&& exists|pulled: Seq<F>| #[trigger] self.pulled_into::<Cx>(next, pulled, r)
    }

    /// Fills the pool from the source up to the limit, then polls the pool
    /// once: its result is reported, or the end once the source has ended
    /// and nothing is in flight.
    fn poll(&mut self, cx: &mut Cx) -> (r: Poll<Option<F::Item>, S::Error>) {
        let ghost mut pulled: Seq<F> = Seq::empty();
        let ghost mut stopped = false;
        proof {
            lemma_run_empty::<Cx, Fuse<S>>(self.stream);
        }
        while self.queue.len() < self.max
            invariant_except_break
                !stopped,
                yields_then::<Cx, Fuse<S>>(old(self).source(), pulled, self.source()),
            invariant
                self.wf_stream(),
                self.max == old(self).max,
                old(self).wf_stream(),
                self.in_flight() == old(self).in_flight() + pulled,
            ensures
                !stopped ==> yields_then::<Cx, Fuse<S>>(old(self).source(), pulled, self.source()),
                stopped || self.queue.members().len() >= self.max,
                stopped ==> old(self).filled::<Cx>(self.source(), pulled),
            decreases self.max - self.queue.members().len(),
        {
            let ghost s0 = self.stream;
            let rs = self.stream.poll(cx);
            assert(<Fuse<S> as Stream<Cx>>::polled(s0, self.stream, rs));
            let future = match rs {
                Err(e) => {
                    assert(run_then::<Cx, Fuse<S>>(old(self).source(), pulled, rs, self.source()));
                    assert(old(self).pulled_into::<Cx>(*self, pulled, Err(e)));
                    return Err(e);
                },
                Ok(Async::Ready(Some(f))) => {
                    assert(S::polled(s0.inner(), self.stream.inner(), rs));
                    f
                },
                Ok(_) => {
                    assert(run_then::<Cx, Fuse<S>>(old(self).source(), pulled, rs, self.source()));
                    proof {
                        stopped = true;
                    }
                    break;
                },
            };
            let ghost p0 = pulled;
            self.queue.push(future);
            proof {
                lemma_run_push::<Cx, Fuse<S>>(old(self).source(), p0, s0, future, self.stream);
                pulled = pulled.push(future);
                assert(old(self).in_flight() + pulled =~= (old(self).in_flight() + p0).push(future));
            }
        }
        let ghost q0 = self.queue;
        let ghost mid = self.in_flight();
        assert(old(self).filled::<Cx>(self.source(), pulled));
        let rq = self.queue.poll(cx);
        assert(<FuturesUnordered<F> as Stream<Cx>>::polled(q0, self.pool(), rq));
        let r = match rq {
            Err(e) => Err(e),
            Ok(Async::NotReady) => {
                assert(q0.members().len() > 0);
                Ok(Async::NotReady)
            },
            Ok(Async::Ready(Some(v))) => Ok(Async::Ready(Some(v))),
            Ok(Async::Ready(None)) => {
                if self.stream.is_done() {
                    Ok(Async::Ready(None))
                } else {
                    Ok(Async::NotReady)
                }
            },
        };
        assert(Self::pool_step::<Cx>(mid, self.pool(), self.source().done(), r));
        assert(old(self).pulled_into::<Cx>(*self, pulled, r));
        r
    }
}

/// Each result is reported once and takes exactly one computation out of
/// the pool: a poll that reports an item leaves in flight the computations
/// that were there plus those it pulled, less the one that finished; a
/// poll that reports "not ready" or the end takes none out. So over a run
/// every computation pulled from the source is either still in flight or
/// has had its result reported exactly once.
pub proof fn lemma_buffer_unordered_counts<Cx, S, F>(b: BufferUnordered<S, F>, next: BufferUnordered<S, F>, r: Poll<Option<F::Item>, S::Error>) where
    S: Stream<Cx, Item = F>,
    F: Future<Cx, Error = S::Error>,

    requires
        <BufferUnordered<S, F> as Stream<Cx>>::polled(b, next, r),
    ensures
        exists|pulled: Seq<F>| #[trigger] b.pulled_into::<Cx>(next, pulled, r) && {
            &&& r matches Ok(Async::Ready(Some(_))) ==> next.in_flight().len() + 1 == b.in_flight().len() + pulled.len()
            &&& !(r is Err) && !(r matches Ok(Async::Ready(Some(_)))) ==> next.in_flight().len() == b.in_flight().len() + pulled.len()
        },
{
    let pulled = choose|pulled: Seq<F>| #[trigger] b.pulled_into::<Cx>(next, pulled, r);
    if !(r is Err) {
        let mid = b.in_flight() + pulled;
        let (q, rq) = choose|q: FuturesUnordered<F>, rq: Poll<Option<F::Item>, F::Error>|
            #[trigger] <FuturesUnordered<F> as Stream<Cx>>::polled(q, next.pool(), rq) && q.members() == mid && {
                if rq == end::<F::Item, F::Error>() {
                    r == if next.source().done() { end::<F::Item, F::Error>() } else { Poll::<Option<F::Item>, F::Error>::Ok(Async::NotReady) }
                } else {
                    r == rq
                }
            };
        lemma_pool_yields_each_once::<Cx, F>(q, next.pool(), rq);
    }
}

/// `bs` is a run of polls: polling `bs[i]` took it to `bs[i + 1]` and
/// reported `rs[i]`.
pub open spec fn is_run<Cx, S, F>(bs: Seq<BufferUnordered<S, F>>, rs: Seq<Poll<Option<F::Item>, S::Error>>) -> bool where
    S: Stream<Cx, Item = F>,
    F: Future<Cx, Error = S::Error>,
 {
    &&& bs.len() == rs.len() + 1
    &&& forall|i: int| 0 <= i < rs.len() ==> #[trigger] <BufferUnordered<S, F> as Stream<Cx>>::polled(bs[i], bs[i + 1], rs[i])
}

/// The sum of `counts`.
pub open spec fn total(counts: Seq<nat>) -> nat
    decreases counts.len(),
{
    if counts.len() == 0 {
        0
    } else {
        total(counts.drop_last()) + counts.last()
    }
}

/// Over a run of polls without failures, where poll `i` pulled
/// `counts[i]` computations from the source, the computations in flight at
/// the end and the items reported add up to those in flight at the start
/// and all those pulled: every computation pulled has had its result
/// reported exactly once or is still in flight. A run that ends with the
/// end has reported one item per computation pulled, and every one that
/// was in flight at the start.
pub proof fn lemma_buffer_unordered_run<Cx, S, F>(bs: Seq<BufferUnordered<S, F>>, rs: Seq<Poll<Option<F::Item>, S::Error>>) where
    S: Stream<Cx, Item = F>,
    F: Future<Cx, Error = S::Error>,

    requires
        is_run::<Cx, S, F>(bs, rs),
        forall|i: int| 0 <= i < rs.len() ==> !(#[trigger] rs[i] is Err),
    ensures
        exists|counts: Seq<nat>| {
            &&& counts.len() == rs.len()
            &&& #[trigger] total(counts) + bs[0].in_flight().len() == bs.last().in_flight().len() + yielded(rs)
            &&& rs.len() > 0 && rs.last() == end::<F::Item, S::Error>() ==> total(counts) + bs[0].in_flight().len() == yielded(rs)
        },
    decreases rs.len(),
{
    if rs.len() == 0 {
        let counts = Seq::<nat>::empty();
        assert(total(counts) + bs[0].in_flight().len() == bs.last().in_flight().len() + yielded(rs));
    } else {
        let n = rs.len() - 1;
        let bs0 = bs.drop_last();
        let rs0 = rs.drop_last();
        assert(is_run::<Cx, S, F>(bs0, rs0)) by {
            assert forall|i: int| 0 <= i < rs0.len() implies
                #[trigger] <BufferUnordered<S, F> as Stream<Cx>>::polled(bs0[i], bs0[i + 1], rs0[i]) by {
                assert(<BufferUnordered<S, F> as Stream<Cx>>::polled(bs[i], bs[i + 1], rs[i]));
            }
        }
        assert forall|i: int| 0 <= i < rs0.len() implies !(#[trigger] rs0[i] is Err) by {
            assert(!(rs[i] is Err));
        }
        lemma_buffer_unordered_run::<Cx, S, F>(bs0, rs0);
        let c0 = choose|counts: Seq<nat>| {
            &&& counts.len() == rs0.len()
            &&& #[trigger] total(counts) + bs0[0].in_flight().len() == bs0.last().in_flight().len() + yielded(rs0)
            &&& rs0.len() > 0 && rs0.last() == end::<F::Item, S::Error>() ==> total(counts) + bs0[0].in_flight().len() == yielded(rs0)
        };
        assert(<BufferUnordered<S, F> as Stream<Cx>>::polled(bs[n], bs[n + 1], rs[n]));
        assert(!(rs[n] is Err));
        lemma_buffer_unordered_counts::<Cx, S, F>(bs[n], bs[n + 1], rs[n]);
        let pulled = choose|pulled: Seq<F>| #[trigger] bs[n].pulled_into::<Cx>(bs[n + 1], pulled, rs[n]) && {
            &&& rs[n] matches Ok(Async::Ready(Some(_))) ==> bs[n + 1].in_flight().len() + 1 == bs[n].in_flight().len() + pulled.len()
            &&& !(rs[n] is Err) && !(rs[n] matches Ok(Async::Ready(Some(_)))) ==> bs[n + 1].in_flight().len() == bs[n].in_flight().len() + pulled.len()
        };
        let counts = c0.push(pulled.len());
        assert(counts.drop_last() =~= c0);
        assert(rs.drop_last() =~= rs0);
        assert(bs0.last() == bs[n]);
        assert(bs0[0] == bs[0]);
        assert(total(counts) + bs[0].in_flight().len() == bs.last().in_flight().len() + yielded(rs));
        if rs.last() == end::<F::Item, S::Error>() {
            assert(bs.last().in_flight().len() == 0);
        }
    }
}

/// The number of computations in flight never exceeds the limit: every
/// well-formed state respects it, and a poll keeps a state well formed.
pub proof fn lemma_in_flight_within_limit<Cx, S, F>(b: BufferUnordered<S, F>, next: BufferUnordered<S, F>, r: Poll<Option<F::Item>, S::Error>) where
    S: Stream<Cx, Item = F>,
    F: Future<Cx, Error = S::Error>,

    requires
        b.wf_stream(),
        next.wf_stream(),
        <BufferUnordered<S, F> as Stream<Cx>>::polled(b, next, r),
    ensures
        b.in_flight().len() <= b.limit(),
        next.in_flight().len() <= b.limit(),
{
}

impl<Cx, S, F> Sink<Cx> for BufferUnordered<S, F> where S: Sink<Cx> {
    type SinkItem = S::SinkItem;

    type SinkError = S::SinkError;

    open spec fn wf_sink(&self) -> bool {
        self.source().inner().wf_sink()
    }

    open spec fn accepted(&self) -> Seq<S::SinkItem> {
        self.source().inner().accepted()
    }

    open spec fn is_full(&self) -> bool {
        self.source().inner().is_full()
    }

    open spec fn flushed(&self) -> bool {
        self.source().inner().flushed()
    }

    open spec fn closed(&self) -> bool {
        self.source().inner().closed()
    }

    fn start_send(&mut self, cx: &mut Cx, item: S::SinkItem) -> (r: StartSend<S::SinkItem, S::SinkError>) {
        self.stream.start_send(cx, item)
    }

    fn poll_complete(&mut self, cx: &mut Cx) -> (r: Poll<(), S::SinkError>) {
        self.stream.poll_complete(cx)
    }

    fn close(&mut self, cx: &mut Cx) -> (r: Poll<(), S::SinkError>) {
        self.stream.close(cx)
    }
}

} // verus!
