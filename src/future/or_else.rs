//! Error recovery: run a computation, and on failure run one built from the
//! error.

use vstd::prelude::*;
use crate::future::Future;
use crate::future::and_then::selects_live;
use crate::future::chain::Chain;
use crate::poll::Poll;

verus! {

/// A computation that runs `A`; if `A` fails, passes the error to `F` and
/// runs the computation that `F` returns. A success of `A` is the outcome.
#[derive(Debug)]
#[must_use]
pub struct OrElse<A, B, F> {
    state: Chain<A, B, F>,
}

/// Chains the recovery `f` onto `future`.
pub fn new<A, B, F>(future: A, f: F) -> (r: OrElse<A, B, F>)
    ensures
        r.state() == Chain::<A, B, F>::First(future, f),
{
    OrElse { state: Chain::new(future, f) }
}

impl<A, B, F> OrElse<A, B, F> {
    /// The state of the underlying chain.
    pub closed spec fn state(&self) -> Chain<A, B, F> {
        self.state
    }

    /// What the combining step may return: the item itself for an item, the
    /// selector's computation for a failure.
    pub open spec fn combine<Cx>() -> spec_fn(Result<A::Item, A::Error>, F, Result<Result<B::Item, B>, B::Error>) -> bool where
        A: Future<Cx>,
        B: Future<Cx, Item = A::Item>,
        F: FnOnce(A::Error) -> B,
     {
        |res: Result<A::Item, A::Error>, f: F, out: Result<Result<B::Item, B>, B::Error>|
            match res {
                Ok(x) => out == Result::<Result<B::Item, B>, B::Error>::Ok(Ok(x)),
                Err(e) => out matches Ok(Err(b)) && f.ensures((e,), b),
            }
    }
}

impl<Cx, A, B, F> Future<Cx> for OrElse<A, B, F> where
    A: Future<Cx>,
    B: Future<Cx, Item = A::Item>,
    F: FnOnce(A::Error) -> B,
 {
    type Item = B::Item;

    type Error = B::Error;

    open spec fn live(&self) -> bool {
        &&& self.state().live::<Cx>()
        &&& self.state() matches Chain::First(_, f) ==> selects_live::<Cx, A::Error, B, F>(f)
    }

    open spec fn polled(self, next: Self, r: Poll<B::Item, B::Error>) -> bool {
        self.state().stepped::<Cx>(next.state(), Self::combine::<Cx>(), r)
    }

    fn poll(&mut self, cx: &mut Cx) -> (r: Poll<B::Item, B::Error>) {
        let g = |res: Result<A::Item, A::Error>, f: F| -> (out: Result<Result<B::Item, B>, B::Error>)
            requires
                selects_live::<Cx, A::Error, B, F>(f),
            ensures
                match res {
                    Ok(x) => out == Result::<Result<B::Item, B>, B::Error>::Ok(Ok(x)),
                    Err(e) => out matches Ok(Err(b)) && f.ensures((e,), b),
                },
        {
            match res {
                Ok(x) => Ok(Ok(x)),
                Err(e) => Ok(Err(f(e))),
            }
        };
        proof {
            let ghost st = self.state;
            if let Chain::First(_, f) = st {
                assert forall|res: Result<A::Item, A::Error>, out: Result<Result<B::Item, B>, B::Error>|
                    #[trigger] (Self::combine::<Cx>())(res, f, out) implies (out matches Ok(Err(b)) ==> b.live()) by {
                    if let Err(e) = res {
                        if let Ok(Err(b)) = out {
                            assert(f.ensures((e,), b));
                        }
                    }
                }
            }
        }
        self.state.poll(cx, g, Ghost(Self::combine::<Cx>()))
    }
}

} // verus!
