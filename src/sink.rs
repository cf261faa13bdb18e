//! Consumers of items and their combinators.

pub mod buffer;
pub mod from_err;
pub mod with;
pub mod with_flat_map;

use vstd::prelude::*;
use crate::poll::{Async, AsyncSink, Poll, StartSend};

verus! {

/// A consumer that accepts items one at a time under flow control.
///
/// `accepted` is the sequence of every item the consumer has accepted so
/// far. A send either accepts the item, which extends that sequence by it,
/// or hands the very same item back; an item is never lost by a send that
/// does not fail. `wf_sink` is the invariant of an implementation.
pub trait Sink<Cx>: Sized {
    /// The items accepted.
    type SinkItem;

    /// The failure value.
    type SinkError;

    /// The invariant of the consumer's state; none unless an implementation
    /// says otherwise.
    open spec fn wf_sink(&self) -> bool {
        true
    }

    /// Every item accepted so far, in order.
    ///
    /// The default describes a consumer that accepts nothing; every
    /// implementation that accepts items states its own.
    open spec fn accepted(&self) -> Seq<Self::SinkItem> {
        Seq::empty()
    }

    /// The consumer cannot take an item now: a send it rejects leaves it
    /// in such a state.
    open spec fn is_full(&self) -> bool {
        true
    }

    /// Every accepted item has been pushed through: a flush that reports
    /// `Ready` leaves the consumer so, and one that reports `NotReady` does
    /// not.
    open spec fn flushed(&self) -> bool {
        true
    }

    /// `e` is a failure this kind of consumer may report; none is ruled out
    /// unless an implementation says otherwise.
    open spec fn reports(e: Self::SinkError) -> bool {
        true
    }

    /// The consumer is closed: a close that reports `Ready` leaves it so,
    /// and one that reports `NotReady` does not.
    open spec fn closed(&self) -> bool {
        true
    }

    /// Offers `item`: it is accepted, or handed back unchanged when the
    /// consumer is full for now.
    fn start_send(&mut self, cx: &mut Cx, item: Self::SinkItem) -> (r: StartSend<Self::SinkItem, Self::SinkError>)
        requires
            old(self).wf_sink(),
        ensures
            final(self).wf_sink(),
            r matches Ok(AsyncSink::Ready) ==> final(self).accepted() == old(self).accepted().push(item),
            r matches Ok(AsyncSink::NotReady(x)) ==> x == item && final(self).accepted() == old(self).accepted()
                && final(self).is_full(),
            r matches Err(e) ==> Self::reports(e),
    ;

    /// Pushes accepted items on; `Ready` once all of them are through.
    fn poll_complete(&mut self, cx: &mut Cx) -> (r: Poll<(), Self::SinkError>)
        requires
            old(self).wf_sink(),
        ensures
            final(self).wf_sink(),
            r is Ok ==> final(self).accepted() == old(self).accepted(),
            r matches Ok(Async::Ready(_)) ==> final(self).flushed(),
            r matches Ok(Async::NotReady) ==> !final(self).flushed(),
            r matches Err(e) ==> Self::reports(e),
    ;

    /// Pushes accepted items on and closes; `Ready` once closed.
    fn close(&mut self, cx: &mut Cx) -> (r: Poll<(), Self::SinkError>)
        requires
            old(self).wf_sink(),
        ensures
            final(self).wf_sink(),
            r is Ok ==> final(self).accepted() == old(self).accepted(),
            r matches Ok(Async::Ready(_)) ==> final(self).closed(),
            r matches Ok(Async::NotReady) ==> !final(self).closed(),
            r matches Err(e) ==> Self::reports(e),
    ;
}

} // verus!
