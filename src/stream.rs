//! Sequences of items and their combinators.

pub mod fuse;
pub mod for_each;
pub mod collect;
pub mod flatten;
pub mod peek;
pub mod take_while;
pub mod and_then;
pub mod or_else;
pub mod filter;
pub mod from_err;
pub mod poll_fn;
pub mod take;
pub mod skip;
pub mod split;
pub mod buffer_unordered;
pub mod futures_unordered;

use vstd::prelude::*;
use crate::poll::{Async, Poll};

verus! {

/// A sequence that produces zero or more items, then reports its end with
/// `Ok(Async::Ready(None))`.
///
/// `wf_stream` is the invariant of an implementation, which every poll
/// keeps; `polled` relates the state before a poll, the state after it and
/// the result of that poll.
pub trait Stream<Cx>: Sized {
    /// The items produced.
    type Item;

    /// The failure value.
    type Error;

    /// The invariant of the sequence's state; none unless an implementation
    /// says otherwise.
    open spec fn wf_stream(&self) -> bool {
        true
    }

    /// A poll may take `self` to `next` and return `r`.
    ///
    /// An implementation that says nothing promises nothing of a poll.
    open spec fn polled(self, next: Self, r: Poll<Option<Self::Item>, Self::Error>) -> bool {
        true
    }

    /// Makes as much progress as possible without blocking: an item, the
    /// end of the sequence (`None`), "not yet", or a failure.
    fn poll(&mut self, cx: &mut Cx) -> (r: Poll<Option<Self::Item>, Self::Error>)
        requires
            old(self).wf_stream(),
        ensures
            final(self).wf_stream(),
            Self::polled(*old(self), *final(self), r),
    ;
}

/// `sts` are the states of a sequence along polls that produced `items`:
/// polling `sts[i]` reported the item `items[i]` and left `sts[i + 1]`.
pub open spec fn item_run<Cx, S: Stream<Cx>>(sts: Seq<S>, items: Seq<S::Item>) -> bool {
    &&& sts.len() == items.len() + 1
    &&& forall|i: int| 0 <= i < items.len() ==>
        #[trigger] S::polled(sts[i], sts[i + 1], Poll::<Option<S::Item>, S::Error>::Ok(Async::Ready(Some(items[i]))))
}

/// Polling `s` over and over produced `items`, in order, and left `t`.
pub open spec fn yields_then<Cx, S: Stream<Cx>>(s: S, items: Seq<S::Item>, t: S) -> bool {
    exists|sts: Seq<S>| #[trigger] item_run::<Cx, S>(sts, items) && sts[0] == s && sts.last() == t
}

/// Polling `s` over and over produced `items`, in order, then one more
/// poll reported `last` and left `t`.
pub open spec fn run_then<Cx, S: Stream<Cx>>(s: S, items: Seq<S::Item>, last: Poll<Option<S::Item>, S::Error>, t: S) -> bool {
    exists|m: S| #[trigger] yields_then::<Cx, S>(s, items, m) && S::polled(m, t, last)
}

/// A run of no polls.
pub proof fn lemma_run_empty<Cx, S: Stream<Cx>>(s: S)
    ensures
        yields_then::<Cx, S>(s, Seq::empty(), s),
{
    let sts = seq![s];
    assert(item_run::<Cx, S>(sts, Seq::empty()));
}

/// A run extended by one more poll that produced an item.
pub proof fn lemma_run_push<Cx, S: Stream<Cx>>(s: S, items: Seq<S::Item>, m: S, x: S::Item, t: S)
    requires
        yields_then::<Cx, S>(s, items, m),
        S::polled(m, t, Poll::<Option<S::Item>, S::Error>::Ok(Async::Ready(Some(x)))),
    ensures
        yields_then::<Cx, S>(s, items.push(x), t),
{
    let sts = choose|sts: Seq<S>| #[trigger] item_run::<Cx, S>(sts, items) && sts[0] == s && sts.last() == m;
    let sts2 = sts.push(t);
    let items2 = items.push(x);
    assert forall|i: int| 0 <= i < items2.len() implies
        #[trigger] S::polled(sts2[i], sts2[i + 1], Poll::<Option<S::Item>, S::Error>::Ok(Async::Ready(Some(items2[i])))) by {
        if i < items.len() {
            assert(sts2[i] == sts[i] && sts2[i + 1] == sts[i + 1] && items2[i] == items[i]);
        } else {
            assert(sts2[i] == m && sts2[i + 1] == t && items2[i] == x);
        }
    }
    assert(item_run::<Cx, S>(sts2, items2));
}

/// The result that reports the end of a sequence.
pub open spec fn end<T, E>() -> Poll<Option<T>, E> {
    Ok(Async::Ready(None))
}

} // verus!
