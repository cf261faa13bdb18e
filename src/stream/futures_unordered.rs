//! A pool of in-flight computations whose results come out as they finish.

use vstd::prelude::*;
use crate::future::Future;
use crate::poll::{Async, Poll};
use crate::stream::{end, Stream};

verus! {

/// An unordered set of in-flight computations. A poll scans the members,
/// and removes and reports the first one found to finish, whatever the
/// order in which they were pushed.
#[derive(Debug)]
#[must_use]
pub struct FuturesUnordered<F> {
    futures: Vec<F>,
}

impl<F> FuturesUnordered<F> {
    /// The members, in the order in which a poll scans them.
    pub closed spec fn members(&self) -> Seq<F> {
        self.futures@
    }

    /// An empty pool.
    pub fn new() -> (r: Self)
        ensures
            r.members() == Seq::<F>::empty(),
    {
        FuturesUnordered { futures: Vec::new() }
    }

    /// The number of members.
    pub fn len(&self) -> (r: usize)
        ensures
            r == self.members().len(),
    {
        self.futures.len()
    }

    /// Whether the pool has no member.
    pub fn is_empty(&self) -> (r: bool)
        ensures
            r == (self.members().len() == 0),
    {
        self.futures.len() == 0
    }

    /// Admits `future` as a new member.
    pub fn push(&mut self, future: F)
        ensures
            final(self).members() == old(self).members().push(future),
    {
        self.futures.push(future);
    }
}

impl<F> FuturesUnordered<F> {
    /// A poll of the pool that reports `r` went this way: the members before
    /// `k` were polled and are not ready, and member `k` finished with
    /// `r0`, which the pool reports, and left the pool; the members after
    /// it were not polled.
    pub open spec fn finished_at<Cx>(self, next: Self, k: int, r0: Poll<F::Item, F::Error>) -> bool where
        F: Future<Cx>,
     {
        &&& 0 <= k < self.members().len()
        &&& next.members().len() == self.members().len() - 1
        &&& exists|fk: F| #[trigger] F::polled(self.members()[k], fk, r0)
        &&& forall|j: int| 0 <= j < k ==> #[trigger] F::polled(self.members()[j], next.members()[j], Poll::<F::Item, F::Error>::Ok(Async::NotReady))
        &&& forall|j: int| k <= j < next.members().len() ==> #[trigger] next.members()[j] == self.members()[j + 1]
    }
}

impl<F> FuturesUnordered<F> {
    /// A poll of the pool finished some member with `r0`.
    pub open spec fn finishes<Cx>(self, next: Self, r0: Poll<F::Item, F::Error>) -> bool where F: Future<Cx> {
        exists|k: int| #[trigger] self.finished_at::<Cx>(next, k, r0)
    }

    /// Removing member `k` from the scanned state `mid` is a finish at `k`.
    proof fn lemma_removed<Cx>(old_pool: Self, mid: Seq<F>, next: Self, k: int, r0: Poll<F::Item, F::Error>) where
        F: Future<Cx>,

        requires
            0 <= k < mid.len(),
            mid.len() == old_pool.members().len(),
            next.members() == mid.remove(k),
            F::polled(old_pool.members()[k], mid[k], r0),
            forall|j: int| 0 <= j < k ==> #[trigger] F::polled(old_pool.members()[j], mid[j], Poll::<F::Item, F::Error>::Ok(Async::NotReady)),
            forall|j: int| 0 <= j < k ==> #[trigger] mid[j].live(),
            forall|j: int| k < j < mid.len() ==> #[trigger] mid[j] == old_pool.members()[j],
            forall|j: int| 0 <= j < old_pool.members().len() ==> #[trigger] old_pool.members()[j].live(),
        ensures
            old_pool.finished_at::<Cx>(next, k, r0),
            forall|j: int| 0 <= j < next.members().len() ==> #[trigger] next.members()[j].live(),
    {
        assert forall|j: int| 0 <= j < k implies #[trigger] F::polled(old_pool.members()[j], next.members()[j], Poll::<F::Item, F::Error>::Ok(Async::NotReady)) by {
            assert(next.members()[j] == mid[j]);
        }
        assert forall|j: int| k <= j < next.members().len() implies #[trigger] next.members()[j] == old_pool.members()[j + 1] by {
            assert(next.members()[j] == mid[j + 1]);
        }
        assert forall|j: int| 0 <= j < next.members().len() implies #[trigger] next.members()[j].live() by {
            if j < k {
                assert(next.members()[j] == mid[j]);
            } else {
                assert(next.members()[j] == old_pool.members()[j + 1]);
            }
        }
    }
}

impl<Cx, F: Future<Cx>> Stream<Cx> for FuturesUnordered<F> {
    type Item = F::Item;

    type Error = F::Error;

    /// Every member is live.
    open spec fn wf_stream(&self) -> bool {
        forall|i: int| 0 <= i < self.members().len() ==> #[trigger] self.members()[i].live()
    }

    open spec fn polled(self, next: Self, r: Poll<Option<F::Item>, F::Error>) -> bool {
        if self.members().len() == 0 {
            r == end::<F::Item, F::Error>() && next == self
        } else {
            match r {
                Ok(Async::NotReady) => {
                    &&& next.members().len() == self.members().len()
                    &&& forall|j: int| 0 <= j < self.members().len() ==> #[trigger] F::polled(self.members()[j], next.members()[j], Poll::<F::Item, F::Error>::Ok(Async::NotReady))
                },
                Ok(Async::Ready(Some(v))) => self.finishes::<Cx>(next, Poll::<F::Item, F::Error>::Ok(Async::Ready(v))),
                Ok(Async::Ready(None)) => false,
                Err(e) => self.finishes::<Cx>(next, Poll::<F::Item, F::Error>::Err(e)),
            }
        }
    }

    fn poll(&mut self, cx: &mut Cx) -> (r: Poll<Option<F::Item>, F::Error>) {
        let ghost old_members = self.futures@;
        if self.futures.len() == 0 {
            return Ok(Async::Ready(None));
        }
        assert(self.members() == old_members);
        let mut i: usize = 0;
        while i < self.futures.len()
            invariant
                old_members == old(self).futures@,
                old_members.len() > 0,
                self.futures@.len() == old_members.len(),
                0 <= i <= self.futures@.len(),
                forall|j: int| 0 <= j < i ==> #[trigger] F::polled(old_members[j], self.futures@[j], Poll::<F::Item, F::Error>::Ok(Async::NotReady)),
                forall|j: int| 0 <= j < i ==> #[trigger] self.futures@[j].live(),
                forall|j: int| i <= j < self.futures@.len() ==> #[trigger] self.futures@[j] == old_members[j],
                forall|j: int| 0 <= j < old_members.len() ==> #[trigger] old_members[j].live(),
                old(self).members() == old_members,
                self.members() == self.futures@,
            decreases self.futures@.len() - i,
        {
            let ghost before = self.futures@;
            let ri = self.futures[i].poll(cx);
            assert(F::polled(old_members[i as int], self.futures@[i as int], ri));
            match ri {
                Ok(Async::NotReady) => {
                    assert forall|j: int| i < j < self.futures@.len() implies #[trigger] self.futures@[j] == old_members[j] by {
                        assert(self.futures@[j] == before[j]);
                    }
                    i = i + 1;
                },
                Ok(Async::Ready(v)) => {
                    let ghost mid = self.futures@;
                    let _done = self.futures.remove(i);
                    proof {
                        Self::lemma_removed::<Cx>(*old(self), mid, *self, i as int, Poll::<F::Item, F::Error>::Ok(Async::Ready(v)));
                    }
                    return Ok(Async::Ready(Some(v)));
                },
                Err(e) => {
                    let ghost mid = self.futures@;
                    let _done = self.futures.remove(i);
                    proof {
                        Self::lemma_removed::<Cx>(*old(self), mid, *self, i as int, Poll::<F::Item, F::Error>::Err(e));
                    }
                    return Err(e);
                },
            }
        }
        Ok(Async::NotReady)
    }
}

/// Every result a pool reports, an item or a failure, takes exactly one
/// member out of it; a poll that finds nothing ready keeps every member;
/// and the pool reports its end exactly when it is empty. So a pool of `n`
/// members reports `n` results, one per member, before it reports its end.
pub proof fn lemma_pool_yields_each_once<Cx, F: Future<Cx>>(
    pool: FuturesUnordered<F>,
    next: FuturesUnordered<F>,
    r: Poll<Option<F::Item>, F::Error>,
)
    requires
        <FuturesUnordered<F> as Stream<Cx>>::polled(pool, next, r),
    ensures
        (r == end::<F::Item, F::Error>()) == (pool.members().len() == 0),
        (r matches Ok(Async::Ready(Some(_))) || r is Err) ==> next.members().len() == pool.members().len() - 1,
        r matches Ok(Async::NotReady) ==> next.members().len() == pool.members().len(),
        r == end::<F::Item, F::Error>() ==> next == pool,
{
    if pool.members().len() != 0 {
        match r {
            Ok(Async::Ready(Some(v))) => {
                let k = choose|k: int| #[trigger] pool.finished_at::<Cx>(next, k, Poll::<F::Item, F::Error>::Ok(Async::Ready(v)));
            },
            Err(e) => {
                let k = choose|k: int| #[trigger] pool.finished_at::<Cx>(next, k, Poll::<F::Item, F::Error>::Err(e));
            },
            _ => {},
        }
    }
}

/// `pools` is a run of polls: polling `pools[i]` took it to `pools[i + 1]`
/// and reported `results[i]`.
pub open spec fn is_run<Cx, F: Future<Cx>>(
    pools: Seq<FuturesUnordered<F>>,
    results: Seq<Poll<Option<F::Item>, F::Error>>,
) -> bool {
    &&& pools.len() == results.len() + 1
    &&& forall|i: int| 0 <= i < results.len() ==>
        #[trigger] <FuturesUnordered<F> as Stream<Cx>>::polled(pools[i], pools[i + 1], results[i])
}

/// How many of `results` are results of members: items and failures.
pub open spec fn yielded<T, E>(results: Seq<Poll<Option<T>, E>>) -> nat
    decreases results.len(),
{
    if results.len() == 0 {
        0
    } else {
        let last = results.last();
        yielded(results.drop_last()) + if last matches Ok(Async::Ready(Some(_))) || last is Err {
            1nat
        } else {
            0nat
        }
    }
}

/// Over any run of polls, every member pushed before the run is either
/// still in the pool or has been reported exactly once: the members left
/// and the results reported add up to the members at the start. A run that
/// ends with the pool reporting its end has reported one result per member.
pub proof fn lemma_pool_run_yields_all<Cx, F: Future<Cx>>(
    pools: Seq<FuturesUnordered<F>>,
    results: Seq<Poll<Option<F::Item>, F::Error>>,
)
    requires
        is_run::<Cx, F>(pools, results),
    ensures
        pools.last().members().len() + yielded(results) == pools[0].members().len(),
        results.len() > 0 && results.last() == end::<F::Item, F::Error>() ==>
            yielded(results) == pools[0].members().len(),
    decreases results.len(),
{
    if results.len() > 0 {
        let n = results.len() - 1;
        let shorter = pools.take(n + 1);
        assert(is_run::<Cx, F>(shorter, results.drop_last())) by {
            assert forall|i: int| 0 <= i < results.drop_last().len() implies
                #[trigger] <FuturesUnordered<F> as Stream<Cx>>::polled(shorter[i], shorter[i + 1], results.drop_last()[i]) by {
                assert(<FuturesUnordered<F> as Stream<Cx>>::polled(pools[i], pools[i + 1], results[i]));
            }
        }
        lemma_pool_run_yields_all::<Cx, F>(shorter, results.drop_last());
        assert(<FuturesUnordered<F> as Stream<Cx>>::polled(pools[n], pools[n + 1], results[n]));
        lemma_pool_yields_each_once::<Cx, F>(pools[n], pools[n + 1], results[n]);
        assert(shorter.last() == pools[n]);
        assert(pools.last() == pools[n + 1]);
    }
}

} // verus!
