//! Making the end of a sequence permanent.

use vstd::prelude::*;
use crate::poll::{Async, Poll, StartSend};
use crate::sink::Sink;
use crate::stream::{end, Stream};

verus! {

/// A sequence that reports what `S` reports until `S` ends, and from then
/// on reports the end on every poll, without polling `S` again.
#[derive(Debug)]
#[must_use]
pub struct Fuse<S> {
    stream: S,
    done: bool,
}

/// Fuses `s`.
pub fn new<S>(s: S) -> (r: Fuse<S>)
    ensures
        r.inner() == s,
        !r.done(),
{
    Fuse { stream: s, done: false }
}

impl<S> Fuse<S> {
    /// The wrapped sequence.
    pub closed spec fn inner(&self) -> S {
        self.stream
    }

    /// The wrapped sequence has ended.
    pub closed spec fn done(&self) -> bool {
        self.done
    }

    /// Returns whether the underlying stream has finished or not.
    ///
    /// Once this is `true`, every poll reports the end.
    pub fn is_done(&self) -> (r: bool)
        ensures
            r == self.done(),
    {
        self.done
    }

    /// Acquires a reference to the underlying stream that this combinator is
    /// pulling from.
    pub fn get_ref(&self) -> (r: &S)
        ensures
            *r == self.inner(),
    {
        &self.stream
    }

    /// Acquires a mutable reference to the underlying stream that this
    /// combinator is pulling from.
    pub fn get_mut(&mut self) -> (r: &mut S)
        ensures
            *r == old(self).inner(),
            final(self).inner() == *final(r),
            final(self).done() == old(self).done(),
    {
        &mut self.stream
    }

    /// Consumes this combinator, returning the underlying stream.
    pub fn into_inner(self) -> (r: S)
        ensures
            r == self.inner(),
    {
        self.stream
    }
}

impl<Cx, S: Stream<Cx>> Stream<Cx> for Fuse<S> {
    type Item = S::Item;

    type Error = S::Error;

    open spec fn wf_stream(&self) -> bool {
        self.inner().wf_stream()
    }

    open spec fn polled(self, next: Self, r: Poll<Option<S::Item>, S::Error>) -> bool {
        if self.done() {
            r == end::<S::Item, S::Error>() && next == self
        } else {
            &&& S::polled(self.inner(), next.inner(), r)
            &&& next.done() == (r == end::<S::Item, S::Error>())
        }
    }

    fn poll(&mut self, cx: &mut Cx) -> (r: Poll<Option<S::Item>, S::Error>) {
        if self.done {
            Ok(Async::Ready(None))
        } else {
            let r = self.stream.poll(cx);
            if let Ok(Async::Ready(None)) = r {
                self.done = true;
            }
            r
        }
    }
}

impl<Cx, S: Sink<Cx>> Sink<Cx> for Fuse<S> {
    type SinkItem = S::SinkItem;

    type SinkError = S::SinkError;

    open spec fn wf_sink(&self) -> bool {
        self.inner().wf_sink()
    }

    open spec fn accepted(&self) -> Seq<S::SinkItem> {
        self.inner().accepted()
    }

    open spec fn is_full(&self) -> bool {
        self.inner().is_full()
    }

    open spec fn flushed(&self) -> bool {
        self.inner().flushed()
    }

    open spec fn closed(&self) -> bool {
        self.inner().closed()
    }

    fn start_send(&mut self, cx: &mut Cx, item: S::SinkItem) -> (r: StartSend<S::SinkItem, S::SinkError>) {
        self.stream.start_send(cx, item)
    }

    fn poll_complete(&mut self, cx: &mut Cx) -> (r: Poll<(), S::SinkError>) {
        self.stream.poll_complete(cx)
    }

    fn close(&mut self, cx: &mut Cx) -> (r: Poll<(), S::SinkError>) {
        self.stream.close(cx)
    }
}

/// Once a fused sequence has reported its end, every later poll reports the
/// end again and leaves it as it was, whatever the wrapped sequence would do.
pub proof fn lemma_fuse_end_is_permanent<Cx, S: Stream<Cx>>(
    s: Fuse<S>,
    next: Fuse<S>,
    r: Poll<Option<S::Item>, S::Error>,
    later: Fuse<S>,
    r2: Poll<Option<S::Item>, S::Error>,
)
    requires
        <Fuse<S> as Stream<Cx>>::polled(s, next, r),
        r == end::<S::Item, S::Error>(),
        <Fuse<S> as Stream<Cx>>::polled(next, later, r2),
    ensures
        next.done(),
        r2 == end::<S::Item, S::Error>(),
        later == next,
{
}

} // verus!
