//! A bounded holding area in front of a consumer.

use std::collections::VecDeque;
use vstd::prelude::*;
use crate::poll::{Async, AsyncSink, Poll, StartSend};
use crate::sink::Sink;
use crate::stream::Stream;

verus! {

/// A consumer that queues up to `cap` items (briefly `cap + 1`) when the
/// wrapped consumer cannot take them yet, and hands them on in order.
#[derive(Debug)]
#[must_use]
pub struct Buffer<S, T> {
    sink: S,
    buf: VecDeque<T>,
    cap: usize,
}

/// Puts a holding area of capacity `amt` in front of `sink`.
pub fn new<S, T>(sink: S, amt: usize) -> (r: Buffer<S, T>)
    ensures
        r.inner() == sink,
        r.pending() == Seq::<T>::empty(),
        r.capacity() == amt,
{
    Buffer { sink, buf: VecDeque::with_capacity(amt), cap: amt }
}

impl<S, T> Buffer<S, T> {
    /// The wrapped consumer.
    pub closed spec fn inner(&self) -> S {
        self.sink
    }

    /// The items accepted but not yet handed on, oldest first.
    pub closed spec fn pending(&self) -> Seq<T> {
        self.buf@
    }

    /// The capacity the adapter was made with.
    pub closed spec fn capacity(&self) -> usize {
        self.cap
    }

    /// Get a shared reference to the inner sink.
    pub fn get_ref(&self) -> (r: &S)
        ensures
            *r == self.inner(),
    {
        &self.sink
    }

    /// Get a mutable reference to the inner sink.
    pub fn get_mut(&mut self) -> (r: &mut S)
        ensures
            *r == old(self).inner(),
            final(self).inner() == *final(r),
            final(self).pending() == old(self).pending(),
            final(self).capacity() == old(self).capacity(),
    {
        &mut self.sink
    }

    /// Consumes this combinator, returning the underlying sink.
    ///
    /// Items still pending are dropped with it.
    pub fn into_inner(self) -> (r: S)
        ensures
            r == self.inner(),
    {
        self.sink
    }
}

impl<S, T> Buffer<S, T> {
    /// The wrapped consumer has rejected an item in a state in which it had
    /// accepted exactly `acc`.
    pub open spec fn refused_at<Cx>(acc: Seq<T>) -> bool where S: Sink<Cx, SinkItem = T> {
        exists|m: S| #[trigger] m.is_full() && m.accepted() == acc
    }

    /// `next` is `self` after handing pending items on: the first `k`
    /// pending items went to the wrapped consumer, in order, and the rest
    /// stay pending; if any stay, the wrapped consumer rejected the first
    /// of them.
    pub open spec fn drained<Cx>(self, next: Self) -> bool where S: Sink<Cx, SinkItem = T> {
        let k = self.pending().len() - next.pending().len();
        &&& next.pending().len() <= self.pending().len()
        &&& next.pending() == self.pending().skip(k)
        &&& next.inner().accepted() == self.inner().accepted() + self.pending().take(k)
        &&& next.pending().len() > 0 ==> Self::refused_at::<Cx>(next.inner().accepted())
        &&& next.capacity() == self.capacity()
    }

    /// Hands pending items to the wrapped consumer, oldest first, until it
    /// rejects one or none is left. After a rejection the wrapped consumer
    /// is flushed, so that sends it started get on.
    fn try_empty_buffer<Cx>(&mut self, cx: &mut Cx) -> (r: Poll<(), S::SinkError>) where
        S: Sink<Cx, SinkItem = T>,

        requires
            old(self).inner().wf_sink(),
        ensures
            final(self).inner().wf_sink(),
            final(self).capacity() == old(self).capacity(),
            final(self).pending().len() <= old(self).pending().len(),
            old(self).pending().len() == 0 ==> r == Poll::<(), S::SinkError>::Ok(Async::Ready(()))
                && final(self).inner() == old(self).inner(),
            r is Ok ==> old(self).drained::<Cx>(*final(self)),
            r matches Ok(Async::Ready(_)) ==> final(self).pending().len() == 0,
            r matches Ok(Async::NotReady) ==> final(self).pending().len() > 0,
            r matches Err(e) ==> S::reports(e),
    {
        let ghost acc0 = self.sink.accepted();
        let ghost buf0 = self.buf@;
        loop
            invariant
                self.sink.wf_sink(),
                acc0 == old(self).sink.accepted(),
                buf0 == old(self).buf@,
                self.buf@.len() <= buf0.len(),
                self.buf@ == buf0.skip(buf0.len() - self.buf@.len()),
                self.sink.accepted() == acc0 + buf0.take(buf0.len() - self.buf@.len()),
                self.cap == old(self).cap,
                self.buf@.len() == buf0.len() ==> self.sink == old(self).sink,
            decreases self.buf@.len(),
        {
            let ghost k = buf0.len() - self.buf@.len();
            let next = self.buf.pop_front();
            match next {
                None => {
                    assert(buf0.take(k) =~= buf0);
                    assert(self.pending().len() == 0);
                    return Ok(Async::Ready(()));
                },
                Some(item) => {
                    assert(item == buf0[k]);
                    assert(self.buf@ =~= buf0.skip(k + 1));
                    match self.sink.start_send(cx, item) {
                        Err(e) => {
                            return Err(e);
                        },
                        Ok(AsyncSink::Ready) => {
                            assert(buf0.take(k + 1) =~= buf0.take(k).push(item));
                        },
                        Ok(AsyncSink::NotReady(item)) => {
                            self.buf.push_front(item);
                            assert(self.buf@ =~= buf0.skip(k));
                            let ghost refused = self.sink;
                            // Make sure sends that the wrapped consumer started get on.
                            match self.sink.poll_complete(cx) {
                                Err(e) => {
                                    return Err(e);
                                },
                                Ok(_) => {},
                            }
                            assert(refused.is_full() && refused.accepted() == self.sink.accepted());
                            assert(Self::refused_at::<Cx>(self.inner().accepted()));
                            return Ok(Async::NotReady);
                        },
                    }
                },
            }
        }
    }
}

impl<Cx, S, T> Sink<Cx> for Buffer<S, T> where S: Sink<Cx, SinkItem = T> {
    type SinkItem = T;

    type SinkError = S::SinkError;

    open spec fn wf_sink(&self) -> bool {
        &&& self.inner().wf_sink()
        &&& self.pending().len() <= self.capacity() + 1
    }

    /// What the wrapped consumer has accepted, followed by what is pending.
    open spec fn accepted(&self) -> Seq<T> {
        self.inner().accepted() + self.pending()
    }

    /// More than `cap` items are pending.
    open spec fn is_full(&self) -> bool {
        self.pending().len() > self.capacity()
    }

    /// The failures of the wrapped consumer, passed on unchanged.
    open spec fn reports(e: S::SinkError) -> bool {
        S::reports(e)
    }

    /// Nothing is pending and the wrapped consumer is flushed.
    open spec fn flushed(&self) -> bool {
        self.pending().len() == 0 && self.inner().flushed()
    }

    /// Nothing is pending and the wrapped consumer is closed.
    open spec fn closed(&self) -> bool {
        self.pending().len() == 0 && self.inner().closed()
    }

    /// Hands pending items on first; then accepts `item` into the queue,
    /// unless more than `cap` items are still pending.
    fn start_send(&mut self, cx: &mut Cx, item: T) -> (r: StartSend<T, S::SinkError>)
        ensures
            final(self).capacity() == old(self).capacity(),
            r matches Ok(AsyncSink::NotReady(_)) ==> old(self).drained::<Cx>(*final(self))
                && final(self).pending().len() > final(self).capacity(),
            r matches Ok(AsyncSink::Ready) ==> exists|mid: Self| #[trigger] old(self).drained::<Cx>(mid)
                && mid.pending().len() <= mid.capacity()
                && final(self).inner() == mid.inner()
                && final(self).pending() == mid.pending().push(item),
    {
        match self.try_empty_buffer(cx) {
            Err(e) => {
                return Err(e);
            },
            Ok(_) => {},
        }
        if self.buf.len() > self.cap {
            return Ok(AsyncSink::NotReady(item));
        }
        let ghost before = self.buf@;
        let ghost mid = *self;
        self.buf.push_back(item);
        assert(old(self).drained::<Cx>(mid));
        assert(self.sink.accepted() + self.buf@ =~= (self.sink.accepted() + before).push(item));
        Ok(AsyncSink::Ready)
    }

    /// Hands every pending item on, then flushes the wrapped consumer.
    fn poll_complete(&mut self, cx: &mut Cx) -> (r: Poll<(), S::SinkError>)
        ensures
            final(self).capacity() == old(self).capacity(),
            r is Ok ==> old(self).drained::<Cx>(*final(self)),
            r matches Ok(Async::Ready(_)) ==> final(self).pending().len() == 0,
    {
        match self.try_empty_buffer(cx) {
            Err(e) => {
                return Err(e);
            },
            Ok(Async::NotReady) => {
                return Ok(Async::NotReady);
            },
            Ok(Async::Ready(_)) => {},
        }
        let ghost drained = *self;
        let r = self.sink.poll_complete(cx);
        proof {
            if r is Ok {
                assert(self.pending() == drained.pending());
                assert(self.inner().accepted() == drained.inner().accepted());
            }
        }
        r
    }

    /// Hands every pending item on, then closes the wrapped consumer: no
    /// pending item is dropped by closing.
    fn close(&mut self, cx: &mut Cx) -> (r: Poll<(), S::SinkError>)
        ensures
            final(self).capacity() == old(self).capacity(),
            r is Ok ==> old(self).drained::<Cx>(*final(self)),
            r matches Ok(Async::Ready(_)) ==> final(self).pending().len() == 0,
    {
        if self.buf.len() > 0 {
            match self.try_empty_buffer(cx) {
                Err(e) => {
                    return Err(e);
                },
                Ok(Async::NotReady) => {
                    return Ok(Async::NotReady);
                },
                Ok(Async::Ready(_)) => {},
            }
        } else {
            assert(old(self).pending().skip(0) =~= old(self).pending());
            assert(old(self).pending().take(0) =~= Seq::<T>::empty());
            assert(old(self).inner().accepted() + Seq::<T>::empty() =~= old(self).inner().accepted());
        }
        let ghost drained = *self;
        let r = self.sink.close(cx);
        proof {
            if r is Ok {
                assert(self.pending() == drained.pending());
                assert(self.inner().accepted() == drained.inner().accepted());
            }
        }
        r
    }
}

impl<Cx, S, T> Stream<Cx> for Buffer<S, T> where S: Stream<Cx> {
    type Item = S::Item;

    type Error = S::Error;

    open spec fn wf_stream(&self) -> bool {
        self.inner().wf_stream()
    }

    open spec fn polled(self, next: Self, r: Poll<Option<S::Item>, S::Error>) -> bool {
        &&& S::polled(self.inner(), next.inner(), r)
        &&& next.pending() == self.pending()
        &&& next.capacity() == self.capacity()
    }

    fn poll(&mut self, cx: &mut Cx) -> (r: Poll<Option<S::Item>, S::Error>) {
        self.sink.poll(cx)
    }
}

/// No item that a buffer accepts is lost, duplicated or reordered: the
/// items it has accepted are exactly those its wrapped consumer has
/// accepted, followed by those still pending, in order. Once nothing is
/// pending, as after a flush or a close that reported `Ready`, the wrapped
/// consumer has accepted every item the buffer accepted, in the same order.
pub proof fn lemma_buffer_keeps_every_item<Cx, S: Sink<Cx, SinkItem = T>, T>(b: Buffer<S, T>)
    ensures
        <Buffer<S, T> as Sink<Cx>>::accepted(&b) == b.inner().accepted() + b.pending(),
        b.pending().len() == 0 ==> <Buffer<S, T> as Sink<Cx>>::accepted(&b) == b.inner().accepted(),
{
    if b.pending().len() == 0 {
        assert(b.inner().accepted() + b.pending() =~= b.inner().accepted());
    }
}

} // verus!
