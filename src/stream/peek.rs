//! Looking at the next item of a sequence without taking it.

use vstd::prelude::*;
use crate::poll::{Async, Poll, StartSend};
use crate::sink::Sink;
use crate::stream::fuse::{self, Fuse};
use crate::stream::Stream;

verus! {

/// A sequence that reports what `S` reports, and can show its next item
/// before handing it out.
#[derive(Debug)]
#[must_use]
pub struct Peekable<S, T> {
    stream: Fuse<S>,
    peeked: Option<T>,
}

/// Makes the next item of `stream` visible before it is taken.
pub fn new<S, T>(stream: S) -> (r: Peekable<S, T>)
    ensures
        r.source().inner() == stream,
        !r.source().done(),
        r.peeked() is None,
{
    Peekable { stream: fuse::new(stream), peeked: None }
}

impl<S, T> Peekable<S, T> {
    /// The fused wrapped sequence.
    pub closed spec fn source(&self) -> Fuse<S> {
        self.stream
    }

    /// The item shown by `peek` and not yet handed out.
    pub closed spec fn peeked(&self) -> Option<T> {
        self.peeked
    }
}

impl<Cx, S: Stream<Cx, Item = T>, T> Stream<Cx> for Peekable<S, T> {
    type Item = T;

    type Error = S::Error;

    open spec fn wf_stream(&self) -> bool {
        self.source().wf_stream()
    }

    /// A peeked item comes out first, without polling; otherwise one poll of
    /// the fused sequence.
    open spec fn polled(self, next: Self, r: Poll<Option<T>, S::Error>) -> bool {
        match self.peeked() {
            Some(x) => r == Poll::<Option<T>, S::Error>::Ok(Async::Ready(Some(x))) && next.peeked() is None
                && next.source() == self.source(),
            None => next.peeked() is None && <Fuse<S> as Stream<Cx>>::polled(self.source(), next.source(), r),
        }
    }

    fn poll(&mut self, cx: &mut Cx) -> (r: Poll<Option<T>, S::Error>) {
        let mut taken = None;
        core::mem::swap(&mut self.peeked, &mut taken);
        if let Some(item) = taken {
            return Ok(Async::Ready(Some(item)));
        }
        self.stream.poll(cx)
    }
}

impl<S, T> Peekable<S, T> {
    /// Shows the next item, polling for it if it is not already here, or
    /// passes on a failure. The item stays until the next `poll`.
    pub fn peek<Cx>(&mut self, cx: &mut Cx) -> (r: Poll<Option<&T>, S::Error>) where S: Stream<Cx, Item = T>
        requires
            old(self).source().wf_stream(),
        ensures
            final(self).source().wf_stream(),
            old(self).peeked() matches Some(x) ==> r == Poll::<Option<&T>, S::Error>::Ok(Async::Ready(Some(&x)))
                && *final(self) == *old(self),
            r matches Ok(Async::Ready(Some(x))) ==> final(self).peeked() == Some(*x),
            r matches Ok(Async::Ready(None)) ==> final(self).peeked() is None,
            old(self).peeked() is None ==> match r {
                Ok(Async::Ready(Some(x))) => <Fuse<S> as Stream<Cx>>::polled(old(self).source(), final(self).source(),
                    Poll::<Option<T>, S::Error>::Ok(Async::Ready(Some(*x)))),
                Ok(Async::Ready(None)) => <Fuse<S> as Stream<Cx>>::polled(old(self).source(), final(self).source(),
                    Poll::<Option<T>, S::Error>::Ok(Async::Ready(None))),
                Ok(Async::NotReady) => final(self).peeked() is None
                    && <Fuse<S> as Stream<Cx>>::polled(old(self).source(), final(self).source(),
                    Poll::<Option<T>, S::Error>::Ok(Async::NotReady)),
                Err(e) => final(self).peeked() is None
                    && <Fuse<S> as Stream<Cx>>::polled(old(self).source(), final(self).source(),
                    Poll::<Option<T>, S::Error>::Err(e)),
            },
    {
        if self.peeked.is_some() {
            return Ok(Async::Ready(self.peeked.as_ref()));
        }
        match self.poll(cx) {
            Err(e) => Err(e),
            Ok(Async::NotReady) => Ok(Async::NotReady),
            Ok(Async::Ready(None)) => Ok(Async::Ready(None)),
            Ok(Async::Ready(Some(item))) => {
                self.peeked = Some(item);
                Ok(Async::Ready(self.peeked.as_ref()))
            },
        }
    }
}

impl<Cx, S: Sink<Cx>, T> Sink<Cx> for Peekable<S, T> {
    type SinkItem = S::SinkItem;

    type SinkError = S::SinkError;

    open spec fn wf_sink(&self) -> bool {
        self.source().inner().wf_sink()
    }

    open spec fn accepted(&self) -> Seq<S::SinkItem> {
        self.source().inner().accepted()
    }

    open spec fn is_full(&self) -> bool {
        self.source().inner().is_full()
    }

    open spec fn flushed(&self) -> bool {
        self.source().inner().flushed()
    }

    open spec fn closed(&self) -> bool {
        self.source().inner().closed()
    }

    fn start_send(&mut self, cx: &mut Cx, item: S::SinkItem) -> (r: StartSend<S::SinkItem, S::SinkError>) {
        self.stream.start_send(cx, item)
    }

    fn poll_complete(&mut self, cx: &mut Cx) -> (r: Poll<(), S::SinkError>) {
        self.stream.poll_complete(cx)
    }

    fn close(&mut self, cx: &mut Cx) -> (r: Poll<(), S::SinkError>) {
        self.stream.close(cx)
    }
}

} // verus!
