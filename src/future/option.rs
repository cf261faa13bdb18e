//! An optional computation is a computation of an optional item.

use vstd::prelude::*;
use crate::future::Future;
use crate::poll::{Async, Poll};

verus! {

impl<Cx, F> Future<Cx> for Option<F> where F: Future<Cx> {
    type Item = Option<F::Item>;

    type Error = F::Error;

    open spec fn live(&self) -> bool {
        self matches Some(f) ==> f.live()
    }

    open spec fn polled(self, next: Self, r: Poll<Option<F::Item>, F::Error>) -> bool {
        match self {
            None => next is None && r == Poll::<Option<F::Item>, F::Error>::Ok(Async::Ready(None)),
            Some(f) => next matches Some(f2) && exists|r0: Poll<F::Item, F::Error>|
                #[trigger] F::polled(f, f2, r0) && r == match r0 {
                    Ok(Async::NotReady) => Poll::<Option<F::Item>, F::Error>::Ok(Async::NotReady),
                    Ok(Async::Ready(x)) => Poll::<Option<F::Item>, F::Error>::Ok(Async::Ready(Some(x))),
                    Err(e) => Poll::<Option<F::Item>, F::Error>::Err(e),
                },
        }
    }

    fn poll(&mut self, cx: &mut Cx) -> (r: Poll<Option<F::Item>, F::Error>) {
        let ghost s0 = *self;
        if self.is_none() {
            return Ok(Async::Ready(None));
        }
        let r0 = match self {
            Some(f) => f.poll(cx),
            None => vstd::pervasive::unreached(),
        };
        assert(F::polled(s0->0, self->0, r0));
        match r0 {
            Ok(Async::NotReady) => Ok(Async::NotReady),
            Ok(Async::Ready(x)) => Ok(Async::Ready(Some(x))),
            Err(e) => Err(e),
        }
    }
}

} // verus!
