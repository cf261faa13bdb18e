//! Sequential composition: run a computation, then one built from its item.

use vstd::prelude::*;
use crate::future::{is_run, Future};
use crate::future::chain::Chain;
use crate::poll::{Async, Poll};

verus! {

/// A computation that runs `A`, passes its item to `F`, and then runs the
/// computation that `F` returns. A failure of `A` is the outcome.
#[derive(Debug)]
#[must_use]
pub struct AndThen<A, B, F> {
    state: Chain<A, B, F>,
}

/// Chains `f` onto `future`.
pub fn new<A, B, F>(future: A, f: F) -> (r: AndThen<A, B, F>)
    ensures
        r.state() == Chain::<A, B, F>::First(future, f),
{
    AndThen { state: Chain::new(future, f) }
}

impl<A, B, F> AndThen<A, B, F> {
    /// The state of the underlying chain.
    pub closed spec fn state(&self) -> Chain<A, B, F> {
        self.state
    }

    /// What the combining step may return: the selector's computation for an
    /// item, the failure itself for a failure.
    pub open spec fn combine<Cx>() -> spec_fn(Result<A::Item, A::Error>, F, Result<Result<B::Item, B>, B::Error>) -> bool where
        A: Future<Cx>,
        B: Future<Cx, Error = A::Error>,
        F: FnOnce(A::Item) -> B,
     {
        |res: Result<A::Item, A::Error>, f: F, out: Result<Result<B::Item, B>, B::Error>|
            match res {
                Ok(x) => out matches Ok(Err(b)) && f.ensures((x,), b),
                Err(e) => out == Result::<Result<B::Item, B>, B::Error>::Err(e),
            }
    }
}

/// `f` may be applied to every item and returns live computations.
pub open spec fn selects_live<Cx, X, B: Future<Cx>, F: FnOnce(X) -> B>(f: F) -> bool {
    &&& forall|x: X| #[trigger] f.requires((x,))
    &&& forall|x: X, b: B| #[trigger] f.ensures((x,), b) ==> b.live()
}

impl<Cx, A, B, F> Future<Cx> for AndThen<A, B, F> where
    A: Future<Cx>,
    B: Future<Cx, Error = A::Error>,
    F: FnOnce(A::Item) -> B,
 {
    type Item = B::Item;

    type Error = B::Error;

    open spec fn live(&self) -> bool {
        &&& self.state().live::<Cx>()
        &&& self.state() matches Chain::First(_, f) ==> selects_live::<Cx, A::Item, B, F>(f)
    }

    open spec fn polled(self, next: Self, r: Poll<B::Item, B::Error>) -> bool {
        self.state().stepped::<Cx>(next.state(), Self::combine::<Cx>(), r)
    }

    fn poll(&mut self, cx: &mut Cx) -> (r: Poll<B::Item, B::Error>) {
        let g = |res: Result<A::Item, A::Error>, f: F| -> (out: Result<Result<B::Item, B>, B::Error>)
            requires
                selects_live::<Cx, A::Item, B, F>(f),
            ensures
                match res {
                    Ok(x) => out matches Ok(Err(b)) && f.ensures((x,), b),
                    Err(e) => out == Result::<Result<B::Item, B>, B::Error>::Err(e),
                },
        {
            match res {
                Ok(x) => Ok(Err(f(x))),
                Err(e) => Err(e),
            }
        };
        proof {
            let ghost st = self.state;
            if let Chain::First(_, f) = st {
                assert forall|res: Result<A::Item, A::Error>, out: Result<Result<B::Item, B>, B::Error>|
                    #[trigger] (Self::combine::<Cx>())(res, f, out) implies (out matches Ok(Err(b)) ==> b.live()) by {
                    if let Ok(x) = res {
                        if let Ok(Err(b)) = out {
                            assert(f.ensures((x,), b));
                        }
                    }
                }
            }
        }
        self.state.poll(cx, g, Ghost(Self::combine::<Cx>()))
    }
}

/// How one poll of an `and_then` chain went, when its first computation had
/// not finished before: still pending, with the selector kept; or finished
/// with item `x`, and what the chain reports is what the computation `f(x)`
/// reported on its first poll; or failed, and the failure is reported.
pub open spec fn first_stage_step<Cx, A, B, F>(a: A, f: F, next: AndThen<A, B, F>, r: Poll<B::Item, B::Error>) -> bool where
    A: Future<Cx>,
    B: Future<Cx, Error = A::Error>,
    F: FnOnce(A::Item) -> B,
 {
    ||| exists|a2: A| #[trigger] A::polled(a, a2, Poll::<A::Item, A::Error>::Ok(Async::NotReady))
            && r == Poll::<B::Item, B::Error>::Ok(Async::NotReady)
            && next.state() == Chain::<A, B, F>::First(a2, f)
    ||| exists|a2: A, x: A::Item, b: B, b2: B|
            #[trigger] A::polled(a, a2, Poll::<A::Item, A::Error>::Ok(Async::Ready(x)))
            && #[trigger] f.ensures((x,), b)
            && #[trigger] B::polled(b, b2, r)
            && next.state() == Chain::<A, B, F>::Second(b2)
    ||| exists|a2: A, e: A::Error|
            #[trigger] A::polled(a, a2, Poll::<A::Item, A::Error>::Err(e))
            && r == Poll::<B::Item, B::Error>::Err(e)
            && next.state() is Done
}

/// An `and_then` chain reports what polling `f(x)` directly reports, where
/// `x` is the item of its first computation, however many times either
/// stage was suspended: each poll of the first stage either leaves it
/// pending and reports "not ready", or hands its item to `f` and reports
/// the first poll of the selected computation; from then on each poll of
/// the chain is exactly one poll of that computation.
pub proof fn lemma_and_then_follows_selected<Cx, A, B, F>(s: AndThen<A, B, F>, next: AndThen<A, B, F>, r: Poll<B::Item, B::Error>) where
    A: Future<Cx>,
    B: Future<Cx, Error = A::Error>,
    F: FnOnce(A::Item) -> B,

    requires
        <AndThen<A, B, F> as Future<Cx>>::polled(s, next, r),
    ensures
        s.state() matches Chain::Second(b) ==> exists|b2: B|
            #[trigger] B::polled(b, b2, r) && next.state() == Chain::<A, B, F>::Second(b2),
        s.state() matches Chain::First(a, f) ==> first_stage_step::<Cx, A, B, F>(a, f, next, r),
{
    let combine = AndThen::<A, B, F>::combine::<Cx>();
    if let Chain::First(a, f) = s.state() {
        let (a2, ra) = choose|a2: A, ra: Poll<A::Item, A::Error>| #[trigger] A::polled(a, a2, ra) && match ra {
            Ok(Async::NotReady) => r == Poll::<B::Item, B::Error>::Ok(Async::NotReady)
                && next.state() == Chain::<A, B, F>::First(a2, f),
            Ok(Async::Ready(x)) => Chain::<A, B, F>::after_first::<Cx>(Ok(x), f, combine, next.state(), r),
            Err(e) => Chain::<A, B, F>::after_first::<Cx>(Err(e), f, combine, next.state(), r),
        };
        match ra {
            Ok(Async::NotReady) => {},
            Ok(Async::Ready(x)) => {
                let out = choose|out: Result<Result<B::Item, B>, B::Error>|
                    #[trigger] combine(Ok(x), f, out) && match out {
                        Err(e) => r == Poll::<B::Item, B::Error>::Err(e) && next.state() is Done,
                        Ok(Ok(v)) => r == Poll::<B::Item, B::Error>::Ok(Async::Ready(v)) && next.state() is Done,
                        Ok(Err(b)) => exists|b2: B|
                            #[trigger] B::polled(b, b2, r) && next.state() == Chain::<A, B, F>::Second(b2),
                    };
                if let Ok(Err(b)) = out {
                    let b2 = choose|b2: B| #[trigger] B::polled(b, b2, r) && next.state() == Chain::<A, B, F>::Second(b2);
                    assert(A::polled(a, a2, Poll::<A::Item, A::Error>::Ok(Async::Ready(x))) && f.ensures((x,), b) && B::polled(b, b2, r));
                }
            },
            Err(e) => {
                let out = choose|out: Result<Result<B::Item, B>, B::Error>|
                    #[trigger] combine(Err(e), f, out) && match out {
                        Err(e) => r == Poll::<B::Item, B::Error>::Err(e) && next.state() is Done,
                        Ok(Ok(v)) => r == Poll::<B::Item, B::Error>::Ok(Async::Ready(v)) && next.state() is Done,
                        Ok(Err(b)) => exists|b2: B|
                            #[trigger] B::polled(b, b2, r) && next.state() == Chain::<A, B, F>::Second(b2),
                    };
                assert(A::polled(a, a2, Poll::<A::Item, A::Error>::Err(e)));
            },
        }
    }
}

/// After `k` polls that each reported "not ready" with the first stage still
/// pending, the chain at `cs[k]` was polled once more and its first stage
/// finished: either with a failure, which it reported and is done; or with
/// an item `x`, and from then on every result of the chain is a result of
/// a run of polls of a computation `b` that `f` made of `x`.
pub open spec fn took_over_at<Cx, A, B, F>(cs: Seq<AndThen<A, B, F>>, rs: Seq<Poll<B::Item, B::Error>>, k: int) -> bool where
    A: Future<Cx>,
    B: Future<Cx, Error = A::Error>,
    F: FnOnce(A::Item) -> B,
 {
    cs[k].state() matches Chain::First(a, f) && {
        ||| exists|a2: A, e: A::Error|
                #[trigger] A::polled(a, a2, Poll::<A::Item, A::Error>::Err(e))
                && rs[k] == Poll::<B::Item, B::Error>::Err(e)
                && cs[k + 1].state() is Done
        ||| exists|a2: A, x: A::Item, bs: Seq<B>|
                #[trigger] A::polled(a, a2, Poll::<A::Item, A::Error>::Ok(Async::Ready(x)))
                && #[trigger] f.ensures((x,), bs[0])
                && is_run::<Cx, B>(bs, rs.subrange(k, rs.len() as int))
                && cs.last().state() == Chain::<A, B, F>::Second(bs.last())
    }
}

/// The first `k` polls of the run reported "not ready" with the first stage
/// still pending, and, if the run goes on, the first stage took over at `k`.
pub open spec fn pending_then<Cx, A, B, F>(cs: Seq<AndThen<A, B, F>>, rs: Seq<Poll<B::Item, B::Error>>, k: int) -> bool where
    A: Future<Cx>,
    B: Future<Cx, Error = A::Error>,
    F: FnOnce(A::Item) -> B,
 {
    &&& 0 <= k <= rs.len()
    &&& forall|i: int| 0 <= i < k ==> #[trigger] rs[i] == Poll::<B::Item, B::Error>::Ok(Async::NotReady)
    &&& forall|i: int| 0 <= i <= k ==> #[trigger] cs[i].state() is First
    &&& k < rs.len() ==> took_over_at::<Cx, A, B, F>(cs, rs, k)
}

/// Chain determinism over any number of polls: for a run of polls of an
/// `and_then` chain that starts in its first stage, there is a `k` such
/// that the first `k` polls reported "not ready" while the first
/// computation was pending, and, if the run goes on, the first computation
/// then finished: with a failure, which is the chain's last result; or with
/// an item `x`, and what the chain reported from then on is exactly what a
/// run of polls of the computation `f(x)` reports, whatever number of
/// "not ready" results came along the way.
pub proof fn lemma_and_then_run_follows_selected<Cx, A, B, F>(cs: Seq<AndThen<A, B, F>>, rs: Seq<Poll<B::Item, B::Error>>) where
    A: Future<Cx>,
    B: Future<Cx, Error = A::Error>,
    F: FnOnce(A::Item) -> B,

    requires
        is_run::<Cx, AndThen<A, B, F>>(cs, rs),
        cs[0].state() is First,
    ensures
        exists|k: int| #[trigger] pending_then::<Cx, A, B, F>(cs, rs, k),
    decreases rs.len(),
{
    if rs.len() == 0 {
        assert(forall|i: int| 0 <= i <= 0 ==> #[trigger] cs[i].state() is First);
        assert(pending_then::<Cx, A, B, F>(cs, rs, 0));
        return;
    }
    let n = rs.len() - 1;
    let cs0 = cs.drop_last();
    let rs0 = rs.drop_last();
    assert(is_run::<Cx, AndThen<A, B, F>>(cs0, rs0)) by {
        assert forall|i: int| 0 <= i < rs0.len() implies
            #[trigger] <AndThen<A, B, F> as Future<Cx>>::polled(cs0[i], cs0[i + 1], rs0[i]) by {
            assert(<AndThen<A, B, F> as Future<Cx>>::polled(cs[i], cs[i + 1], rs[i]));
        }
    }
    lemma_and_then_run_follows_selected::<Cx, A, B, F>(cs0, rs0);
    let k0 = choose|k: int| #[trigger] pending_then::<Cx, A, B, F>(cs0, rs0, k);
    assert(<AndThen<A, B, F> as Future<Cx>>::polled(cs[n], cs[n + 1], rs[n]));
    lemma_and_then_follows_selected::<Cx, A, B, F>(cs[n], cs[n + 1], rs[n]);
    if k0 == n {
        // The first stage was still pending before the last poll.
        assert(cs[n] == cs0[n]);
        let a = cs[n].state()->First_0;
        let f = cs[n].state()->First_1;
        assert(first_stage_step::<Cx, A, B, F>(a, f, cs[n + 1], rs[n]));
        if exists|a2: A| #[trigger] A::polled(a, a2, Poll::<A::Item, A::Error>::Ok(Async::NotReady))
            && rs[n] == Poll::<B::Item, B::Error>::Ok(Async::NotReady)
            && cs[n + 1].state() == Chain::<A, B, F>::First(a2, f) {
            assert forall|i: int| 0 <= i < n + 1 implies #[trigger] rs[i] == Poll::<B::Item, B::Error>::Ok(Async::NotReady) by {
                if i < n {
                    assert(rs0[i] == rs[i]);
                }
            }
            assert forall|i: int| 0 <= i <= n + 1 implies #[trigger] cs[i].state() is First by {
                if i <= n {
                    assert(cs0[i] == cs[i]);
                }
            }
            assert(rs.len() == n + 1);
            assert(pending_then::<Cx, A, B, F>(cs, rs, n + 1));
        } else {
            assert forall|i: int| 0 <= i < n implies #[trigger] rs[i] == Poll::<B::Item, B::Error>::Ok(Async::NotReady) by {
                assert(rs0[i] == rs[i]);
            }
            assert forall|i: int| 0 <= i <= n implies #[trigger] cs[i].state() is First by {
                assert(cs0[i] == cs[i]);
            }
            if exists|a2: A, x: A::Item, b: B, b2: B|
                #[trigger] A::polled(a, a2, Poll::<A::Item, A::Error>::Ok(Async::Ready(x)))
                && #[trigger] f.ensures((x,), b)
                && #[trigger] B::polled(b, b2, rs[n])
                && cs[n + 1].state() == Chain::<A, B, F>::Second(b2) {
                let (a2, x, b, b2) = choose|a2: A, x: A::Item, b: B, b2: B|
                    #[trigger] A::polled(a, a2, Poll::<A::Item, A::Error>::Ok(Async::Ready(x)))
                    && #[trigger] f.ensures((x,), b)
                    && #[trigger] B::polled(b, b2, rs[n])
                    && cs[n + 1].state() == Chain::<A, B, F>::Second(b2);
                let bs = seq![b, b2];
                assert(rs.subrange(n, rs.len() as int) =~= seq![rs[n]]);
                assert(is_run::<Cx, B>(bs, rs.subrange(n, rs.len() as int)));
                assert(A::polled(a, a2, Poll::<A::Item, A::Error>::Ok(Async::Ready(x))) && f.ensures((x,), bs[0]));
                assert(took_over_at::<Cx, A, B, F>(cs, rs, n));
            } else {
                assert(took_over_at::<Cx, A, B, F>(cs, rs, n));
            }
            assert(pending_then::<Cx, A, B, F>(cs, rs, n));
        }
    } else {
        // The first stage had finished earlier.
        assert(took_over_at::<Cx, A, B, F>(cs0, rs0, k0));
        assert(cs0[k0] == cs[k0]);
        let a = cs[k0].state()->First_0;
        let f = cs[k0].state()->First_1;
        assert forall|i: int| 0 <= i < k0 implies #[trigger] rs[i] == Poll::<B::Item, B::Error>::Ok(Async::NotReady) by {
            assert(rs0[i] == rs[i]);
        }
        assert forall|i: int| 0 <= i <= k0 implies #[trigger] cs[i].state() is First by {
            assert(cs0[i] == cs[i]);
        }
        if exists|a2: A, e: A::Error|
            #[trigger] A::polled(a, a2, Poll::<A::Item, A::Error>::Err(e))
            && rs0[k0] == Poll::<B::Item, B::Error>::Err(e)
            && cs0[k0 + 1].state() is Done {
            // A finished chain is polled no more.
            assert(cs0[k0 + 1] == cs[k0 + 1]);
            assert(k0 + 1 <= n);
            let j = k0 + 1;
            if j < n {
                assert(<AndThen<A, B, F> as Future<Cx>>::polled(cs[j], cs[j + 1], rs[j]));
            }
            assert(false);
        } else {
            let (a2, x, bs0) = choose|a2: A, x: A::Item, bs: Seq<B>|
                #[trigger] A::polled(a, a2, Poll::<A::Item, A::Error>::Ok(Async::Ready(x)))
                && #[trigger] f.ensures((x,), bs[0])
                && is_run::<Cx, B>(bs, rs0.subrange(k0, rs0.len() as int))
                && cs0.last().state() == Chain::<A, B, F>::Second(bs.last());
            assert(cs0.last() == cs[n]);
            let b2 = choose|b2: B| #[trigger] B::polled(bs0.last(), b2, rs[n]) && cs[n + 1].state() == Chain::<A, B, F>::Second(b2);
            let bs = bs0.push(b2);
            let tail = rs.subrange(k0, rs.len() as int);
            assert(tail =~= rs0.subrange(k0, rs0.len() as int).push(rs[n]));
            assert(is_run::<Cx, B>(bs, tail)) by {
                assert forall|i: int| 0 <= i < tail.len() implies #[trigger] B::polled(bs[i], bs[i + 1], tail[i]) by {
                    if i < tail.len() - 1 {
                        assert(B::polled(bs0[i], bs0[i + 1], rs0.subrange(k0, rs0.len() as int)[i]));
                    }
                }
            }
            assert(bs[0] == bs0[0]);
            assert(A::polled(a, a2, Poll::<A::Item, A::Error>::Ok(Async::Ready(x))) && f.ensures((x,), bs[0]));
            assert(took_over_at::<Cx, A, B, F>(cs, rs, k0));
            assert(pending_then::<Cx, A, B, F>(cs, rs, k0));
        }
    }
}

} // verus!
