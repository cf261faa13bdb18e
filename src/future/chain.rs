//! The two-stage engine behind sequential composition, error recovery and
//! flattening: run a first computation, turn its outcome into either a
//! final result or a second computation, and run that one to completion.

use vstd::prelude::*;
use crate::future::Future;
use crate::poll::{Async, Poll};

verus! {

/// The state of a two-stage chain.
#[derive(Debug)]
pub enum Chain<A, B, C> {
    /// The first computation is running; `C` is the selector, kept until
    /// the first computation finishes.
    First(A, C),
    /// The second computation is running.
    Second(B),
    /// The chain has reported its outcome.
    Done,
}

impl<A, B, C> Chain<A, B, C> {
    /// A chain that starts by running `a`, with selector `c`.
    pub fn new(a: A, c: C) -> (r: Self)
        ensures
            r == Chain::<A, B, C>::First(a, c),
    {
        Chain::First(a, c)
    }
}

impl<A, B, C> Chain<A, B, C> {
    /// The selector has not been used yet.
    pub open spec fn is_first(&self) -> bool {
        self is First
    }
}

impl<A, B, C> Chain<A, B, C> {
    // The context type is a parameter of each item below: it is fixed by
    // the computations' `Future` impls, not by the chain.
    /// The chain may be polled: the stage that runs is live.
    pub open spec fn live<Cx>(&self) -> bool where A: Future<Cx>, B: Future<Cx> {
        match self {
            Chain::First(a, _) => a.live(),
            Chain::Second(b) => b.live(),
            Chain::Done => false,
        }
    }

    /// What happens once the first stage has produced `res`: the combining
    /// function, described by `combine`, either finishes the chain or
    /// selects a second computation, which is polled at once.
    pub open spec fn after_first<Cx>(
        res: Result<A::Item, A::Error>,
        c: C,
        combine: spec_fn(Result<A::Item, A::Error>, C, Result<Result<B::Item, B>, B::Error>) -> bool,
        next: Self,
        r: Poll<B::Item, B::Error>,
    ) -> bool where A: Future<Cx>, B: Future<Cx> {
        exists|out: Result<Result<B::Item, B>, B::Error>|
            #[trigger] combine(res, c, out) && match out {
                Err(e) => r == Poll::<B::Item, B::Error>::Err(e) && next is Done,
                Ok(Ok(v)) => r == Poll::<B::Item, B::Error>::Ok(Async::Ready(v)) && next is Done,
                Ok(Err(b)) => exists|b2: B|
                    #[trigger] B::polled(b, b2, r) && next == Chain::<A, B, C>::Second(b2),
            }
    }

    /// One poll of the chain may take `self` to `next` and return `r`.
    pub open spec fn stepped<Cx>(
        self,
        next: Self,
        combine: spec_fn(Result<A::Item, A::Error>, C, Result<Result<B::Item, B>, B::Error>) -> bool,
        r: Poll<B::Item, B::Error>,
    ) -> bool where A: Future<Cx>, B: Future<Cx> {
        match self {
            Chain::First(a, c) => exists|a2: A, ra: Poll<A::Item, A::Error>|
                #[trigger] A::polled(a, a2, ra) && match ra {
                    Ok(Async::NotReady) => r == Poll::<B::Item, B::Error>::Ok(Async::NotReady)
                        && next == Chain::<A, B, C>::First(a2, c),
                    Ok(Async::Ready(x)) => Self::after_first::<Cx>(Ok(x), c, combine, next, r),
                    Err(e) => Self::after_first::<Cx>(Err(e), c, combine, next, r),
                },
            Chain::Second(b) => exists|b2: B|
                #[trigger] B::polled(b, b2, r) && next == Chain::<A, B, C>::Second(b2),
            Chain::Done => false,
        }
    }

    /// The combining function `g` may be applied to any outcome of the first
    /// stage together with selector `c`, returns only what `combine`
    /// allows, and every second computation that `combine` allows is live.
    pub open spec fn combines<Cx, G>(
        g: G,
        c: C,
        combine: spec_fn(Result<A::Item, A::Error>, C, Result<Result<B::Item, B>, B::Error>) -> bool,
    ) -> bool where
        A: Future<Cx>,
        B: Future<Cx>,
        G: FnOnce(Result<A::Item, A::Error>, C) -> Result<Result<B::Item, B>, B::Error>,
     {
        &&& forall|res: Result<A::Item, A::Error>| #[trigger] g.requires((res, c))
        &&& forall|res: Result<A::Item, A::Error>, out: Result<Result<B::Item, B>, B::Error>|
            #[trigger] g.ensures((res, c), out) ==> combine(res, c, out)
        &&& forall|res: Result<A::Item, A::Error>, out: Result<Result<B::Item, B>, B::Error>|
            Self::first_outcome::<Cx>(res) && #[trigger] combine(res, c, out) ==> (out matches Ok(Err(b)) ==> b.live())
    }

    /// `res`, as a poll result.
    pub open spec fn as_poll<T, E>(res: Result<T, E>) -> Poll<T, E> {
        match res {
            Ok(x) => Ok(Async::Ready(x)),
            Err(e) => Err(e),
        }
    }

    /// Some poll of a first computation may finish with `res`.
    pub open spec fn first_outcome<Cx>(res: Result<A::Item, A::Error>) -> bool where A: Future<Cx> {
        exists|a: A, a2: A| #[trigger] A::polled(a, a2, Self::as_poll(res))
    }

    /// Polls the running stage.
    ///
    /// While the first computation is pending the chain stays in its first
    /// stage. When it finishes, `g` receives its outcome and the selector,
    /// which is consumed there, exactly once; a second computation that `g`
    /// returns is polled at once, and its outcome is the chain's.
    pub fn poll<Cx, G>(
        &mut self,
        cx: &mut Cx,
        g: G,
        combine: Ghost<spec_fn(Result<A::Item, A::Error>, C, Result<Result<B::Item, B>, B::Error>) -> bool>,
    ) -> (r: Poll<B::Item, B::Error>) where
        A: Future<Cx>,
        B: Future<Cx>,
        G: FnOnce(Result<A::Item, A::Error>, C) -> Result<Result<B::Item, B>, B::Error>,

        requires
            old(self).live::<Cx>(),
            *old(self) matches Chain::First(_, c) ==> Self::combines::<Cx, G>(g, c, combine@),
        ensures
            Self::stepped::<Cx>(*old(self), *final(self), combine@, r),
            r matches Ok(Async::NotReady) ==> final(self).live::<Cx>(),
    {
        let mut state = Chain::Done;
        core::mem::swap(self, &mut state);
        match state {
            Chain::First(mut a, c) => {
                let ghost a0 = a;
                let ra = a.poll(cx);
                let ghost ra0 = ra;
                let res = match ra {
                    Ok(Async::NotReady) => {
                        *self = Chain::First(a, c);
                        assert(A::polled(a0, a, ra0));
                        return Ok(Async::NotReady);
                    },
                    Ok(Async::Ready(x)) => Ok(x),
                    Err(e) => Err(e),
                };
                let ghost c0 = c;
                assert(A::polled(a0, a, Self::as_poll(res)));
                assert(Self::first_outcome::<Cx>(res));
                let out = g(res, c);
                assert(combine@(res, c0, out));
                match out {
                    Err(e) => {
                        assert(A::polled(a0, a, ra0));
                        Err(e)
                    },
                    Ok(Ok(v)) => {
                        assert(A::polled(a0, a, ra0));
                        Ok(Async::Ready(v))
                    },
                    Ok(Err(mut b)) => {
                        let ghost b0 = b;
                        let rb = b.poll(cx);
                        *self = Chain::Second(b);
                        assert(B::polled(b0, b, rb));
                        assert(A::polled(a0, a, ra0));
                        rb
                    },
                }
            },
            Chain::Second(mut b) => {
                let ghost b0 = b;
                let rb = b.poll(cx);
                *self = Chain::Second(b);
                assert(B::polled(b0, b, rb));
                rb
            },
            Chain::Done => {
                vstd::pervasive::unreached()
            },
        }
    }
}

} // verus!
