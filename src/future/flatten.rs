//! Flattening a computation whose item is itself a computation.

use vstd::prelude::*;
use crate::future::Future;
use crate::future::chain::Chain;
use crate::poll::{Async, Poll};

verus! {

/// A computation that runs `A`, then runs the computation that `A`
/// produced. A failure of `A` is converted into the inner error type.
#[derive(Debug)]
#[must_use]
pub struct Flatten<A, B> {
    state: Chain<A, B, ()>,
}

/// Flattens `future`.
pub fn new<A, B>(future: A) -> (r: Flatten<A, B>)
    ensures
        r.state() == Chain::<A, B, ()>::First(future, ()),
{
    Flatten { state: Chain::new(future, ()) }
}

/// Every computation that a poll of `A` may produce is live.
pub open spec fn yields_live<Cx, A: Future<Cx>>() -> bool where A::Item: Future<Cx> {
    forall|a: A, a2: A, b: A::Item|
        #[trigger] A::polled(a, a2, Poll::<A::Item, A::Error>::Ok(Async::Ready(b))) ==> b.live()
}

impl<A, B> Flatten<A, B> {
    /// The state of the underlying chain.
    pub closed spec fn state(&self) -> Chain<A, B, ()> {
        self.state
    }

    /// What the combining step may return: the produced computation for an
    /// item, the converted error for a failure.
    pub open spec fn combine<Cx>() -> spec_fn(Result<B, A::Error>, (), Result<Result<B::Item, B>, B::Error>) -> bool where
        A: Future<Cx, Item = B>,
        B: Future<Cx>,
        B::Error: From<A::Error>,
     {
        |res: Result<B, A::Error>, u: (), out: Result<Result<B::Item, B>, B::Error>|
            match res {
                Ok(b) => out == Result::<Result<B::Item, B>, B::Error>::Ok(Err(b)),
                Err(e) => out matches Err(e2) && call_ensures(B::Error::from, (e,), e2),
            }
    }
}

impl<Cx, A, B> Future<Cx> for Flatten<A, B> where
    A: Future<Cx, Item = B>,
    B: Future<Cx>,
    B::Error: From<A::Error>,
 {
    type Item = B::Item;

    type Error = B::Error;

    open spec fn live(&self) -> bool {
        &&& self.state().live::<Cx>()
        &&& yields_live::<Cx, A>()
    }

    open spec fn polled(self, next: Self, r: Poll<B::Item, B::Error>) -> bool {
        self.state().stepped::<Cx>(next.state(), Self::combine::<Cx>(), r)
    }

    fn poll(&mut self, cx: &mut Cx) -> (r: Poll<B::Item, B::Error>) {
        let g = |res: Result<B, A::Error>, u: ()| -> (out: Result<Result<B::Item, B>, B::Error>)
            ensures
                match res {
                    Ok(b) => out == Result::<Result<B::Item, B>, B::Error>::Ok(Err(b)),
                    Err(e) => out matches Err(e2) && call_ensures(B::Error::from, (e,), e2),
                },
        {
            match res {
                Ok(b) => Ok(Err(b)),
                Err(e) => Err(B::Error::from(e)),
            }
        };
        proof {
            assert forall|res: Result<B, A::Error>, out: Result<Result<B::Item, B>, B::Error>|
                Chain::<A, B, ()>::first_outcome::<Cx>(res) && #[trigger] (Self::combine::<Cx>())(res, (), out)
                implies (out matches Ok(Err(b)) ==> b.live()) by {
                if let Ok(b) = res {
                    let (a, a2) = choose|a: A, a2: A| #[trigger] A::polled(a, a2, Chain::<A, B, ()>::as_poll(res));
                    assert(A::polled(a, a2, Poll::<A::Item, A::Error>::Ok(Async::Ready(b))));
                }
            }
        }
        self.state.poll(cx, g, Ghost(Self::combine::<Cx>()))
    }
}

} // verus!
