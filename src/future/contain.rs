//! The outcome of a poll whose panics are contained.

use vstd::prelude::*;
use crate::poll::{Async, Poll};

verus! {

/// Turns the outcome `res` of a poll that did not panic into the outcome of
/// a panic-containing computation, and says whether the computation is to
/// be kept for another poll: "not ready" keeps it and is passed on; a
/// success `t` finishes with `Ok(t)`; a failure `e` finishes with `Err(e)`,
/// as an item, since only a panic is a failure of the containing
/// computation.
pub fn contain<T, E, P>(res: Poll<T, E>) -> (r: (Poll<Result<T, E>, P>, bool))
    ensures
        res == Poll::<T, E>::Ok(Async::NotReady) ==> r == (Poll::<Result<T, E>, P>::Ok(Async::NotReady), true),
        res matches Ok(Async::Ready(t)) ==> r == (Poll::<Result<T, E>, P>::Ok(Async::Ready(Ok(t))), false),
        res matches Err(e) ==> r == (Poll::<Result<T, E>, P>::Ok(Async::Ready(Err(e))), false),
{
    match res {
        Ok(Async::NotReady) => (Ok(Async::NotReady), true),
        Ok(Async::Ready(t)) => (Ok(Async::Ready(Ok(t))), false),
        Err(e) => (Ok(Async::Ready(Err(e))), false),
    }
}

} // verus!
