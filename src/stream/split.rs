//! Splitting an object that is both a sequence and a consumer into a read
//! handle and a write handle, and putting the two back together.

use vstd::prelude::*;
use crate::poll::{Async, AsyncSink, Poll, StartSend};
use crate::sink::Sink;
use crate::stream::Stream;
use crate::sync::BiLock;

verus! {

/// The read half of a split object.
#[verifier::reject_recursive_types(S)]
pub struct SplitStream<S>(BiLock<S>);

/// The write half of a split object. `T` is the type of the items it sends;
/// the ghost fields record the items the object accepted through it and
/// whether its last flush and its last close reported `Ready`, and whether
/// its last send was rejected.
#[verifier::reject_recursive_types(S)]
pub struct SplitSink<S, T>(BiLock<S>, Ghost<Seq<T>>, Ghost<bool>, Ghost<bool>, Ghost<bool>);

/// The two handles given to `reunite` did not come from one call to
/// `split`; both are handed back.
#[verifier::reject_recursive_types(S)]
pub struct ReuniteError<S, T>(pub SplitSink<S, T>, pub SplitStream<S>);

/// Splits `s` into its write half and its read half.
pub fn split<S, T>(s: S) -> (r: (SplitSink<S, T>, SplitStream<S>))
    ensures
        r.0.pairs_with(&r.1),
        r.0.accepted_here() == Seq::<T>::empty(),
{
    let (a, b) = BiLock::new(s);
    let read = SplitStream(a);
    let write = SplitSink(b, Ghost(Seq::empty()), Ghost(false), Ghost(false), Ghost(false));
    (write, read)
}

impl<S> SplitStream<S> {
    /// The lock handle.
    pub closed spec fn lock(&self) -> BiLock<S> {
        self.0
    }

    /// Attempts to put the two halves of a split object back together.
    /// Succeeds only if they come from the same call to `split`.
    pub fn reunite<T>(self, other: SplitSink<S, T>) -> (r: Result<S, ReuniteError<S, T>>)
        ensures
            r is Ok ==> other.pairs_with(&self),
            r matches Err(e) ==> e.0 == other && e.1 == self,
    {
        other.reunite(self)
    }
}

impl<S, T> SplitSink<S, T> {
    /// The two halves come from one call to `split`.
    pub closed spec fn pairs_with(&self, other: &SplitStream<S>) -> bool {
        self.0.pairs_with(&other.0)
    }

    /// The items accepted through this half, in order.
    pub closed spec fn accepted_here(&self) -> Seq<T> {
        self.1@
    }

    /// The last flush through this half reported `Ready`.
    pub closed spec fn flushed_here(&self) -> bool {
        self.2@
    }

    /// The last close through this half reported `Ready`.
    pub closed spec fn closed_here(&self) -> bool {
        self.3@
    }

    /// The last send through this half was rejected.
    pub closed spec fn full_here(&self) -> bool {
        self.4@
    }

    /// Attempts to put the two halves of a split object back together.
    /// Succeeds only if they come from the same call to `split`; otherwise
    /// both halves are handed back unchanged.
    pub fn reunite(self, other: SplitStream<S>) -> (r: Result<S, ReuniteError<S, T>>)
        ensures
            r is Ok ==> self.pairs_with(&other),
            r matches Err(e) ==> e.0 == self && e.1 == other,
    {
        let SplitSink(lock, sent, flushed, closed, full) = self;
        let SplitStream(other_lock) = other;
        match lock.reunite(other_lock) {
            Ok(s) => Ok(s),
            Err(pair) => {
                let (a, b) = pair;
                Err(ReuniteError(SplitSink(a, sent, flushed, closed, full), SplitStream(b)))
            },
        }
    }
}

impl<S> SplitStream<S> {
    /// Some poll of `s` reported `r`.
    pub open spec fn polled_from<Cx>(s: S, r: Poll<Option<S::Item>, S::Error>) -> bool where S: Stream<Cx> {
        exists|s2: S| #[trigger] S::polled(s, s2, r)
    }

    /// Polls the object taken from the shared slot, if any, and puts it
    /// back. With nothing taken, because the other half has the object,
    /// it reports "not ready" at once, without waiting.
    fn poll_taken<Cx>(&self, taken: Option<S>, cx: &mut Cx) -> (r: Poll<Option<S::Item>, S::Error>) where S: Stream<Cx>
        requires
            taken matches Some(s) ==> s.wf_stream(),
        ensures
            taken is None ==> r == Poll::<Option<S::Item>, S::Error>::Ok(Async::NotReady),
            taken matches Some(s) ==> Self::polled_from::<Cx>(s, r),
    {
        match taken {
            Some(mut inner) => {
                let ghost s0 = inner;
                let r = inner.poll(cx);
                assert(S::polled(s0, inner, r));
                self.0.release(inner);
                r
            },
            None => Ok(Async::NotReady),
        }
    }
}

impl<Cx, S: Stream<Cx>> Stream<Cx> for SplitStream<S> {
    type Item = S::Item;

    type Error = S::Error;

    /// Every state of the shared object is well formed: the handle cannot
    /// see which state the other half left it in.
    open spec fn wf_stream(&self) -> bool {
        forall|s: S| #[trigger] s.wf_stream()
    }

    /// Either the other half has the object, and the poll reports that it
    /// is not ready, or the poll is one poll of the object.
    open spec fn polled(self, next: Self, r: Poll<Option<S::Item>, S::Error>) -> bool {
        &&& next == self
        &&& r == Poll::<Option<S::Item>, S::Error>::Ok(Async::NotReady) || exists|s: S, s2: S| #[trigger] S::polled(s, s2, r)
    }

    fn poll(&mut self, cx: &mut Cx) -> (r: Poll<Option<S::Item>, S::Error>) {
        let taken = self.0.try_acquire();
        self.poll_taken(taken, cx)
    }
}

impl<S, T> SplitSink<S, T> {
    /// A send of `item` took the object from `s` to `s2` and returned `r`,
    /// as the object's own send contract describes.
    pub open spec fn send_step<Cx>(s: S, s2: S, item: T, r: StartSend<T, S::SinkError>) -> bool where S: Sink<Cx, SinkItem = T> {
        &&& s2.wf_sink()
        &&& r matches Ok(AsyncSink::Ready) ==> s2.accepted() == s.accepted().push(item)
        &&& r matches Ok(AsyncSink::NotReady(x)) ==> x == item && s2.accepted() == s.accepted() && s2.is_full()
        &&& r matches Err(e) ==> S::reports(e)
    }

    /// A flush (`close` false) or a close (`close` true) took the object
    /// from `s` to `s2` and returned `r`, as the object's own contract
    /// describes.
    pub open spec fn drive_step<Cx>(s: S, s2: S, close: bool, r: Poll<(), S::SinkError>) -> bool where S: Sink<Cx, SinkItem = T> {
        let done = if close { s2.closed() } else { s2.flushed() };
        &&& s2.wf_sink()
        &&& r is Ok ==> s2.accepted() == s.accepted()
        &&& r matches Ok(Async::Ready(_)) ==> done
        &&& r matches Ok(Async::NotReady) ==> !done
        &&& r matches Err(e) ==> S::reports(e)
    }

    /// Some send of `item` to `s` returned `r`.
    pub open spec fn sent_from<Cx>(s: S, item: T, r: StartSend<T, S::SinkError>) -> bool where S: Sink<Cx, SinkItem = T> {
        exists|s2: S| #[trigger] Self::send_step::<Cx>(s, s2, item, r)
    }

    /// Some flush or close of `s` returned `r`.
    pub open spec fn driven_from<Cx>(s: S, close: bool, r: Poll<(), S::SinkError>) -> bool where S: Sink<Cx, SinkItem = T> {
        exists|s2: S| #[trigger] Self::drive_step::<Cx>(s, s2, close, r)
    }

    /// Sends `item` to the object taken from the shared slot, if any, and
    /// puts it back. With nothing taken, the item is handed back at once.
    fn send_taken<Cx>(&self, taken: Option<S>, cx: &mut Cx, item: T) -> (r: StartSend<T, S::SinkError>) where
        S: Sink<Cx, SinkItem = T>,

        requires
            taken matches Some(s) ==> s.wf_sink(),
        ensures
            taken is None ==> r == StartSend::<T, S::SinkError>::Ok(AsyncSink::NotReady(item)),
            taken matches Some(s) ==> Self::sent_from::<Cx>(s, item, r),
    {
        match taken {
            Some(mut inner) => {
                let ghost s0 = inner;
                let ghost x = item;
                let r = inner.start_send(cx, item);
                assert(Self::send_step::<Cx>(s0, inner, x, r));
                self.0.release(inner);
                r
            },
            None => Ok(AsyncSink::NotReady(item)),
        }
    }

    /// Flushes (`close` false) or closes (`close` true) the object taken
    /// from the shared slot, if any, and puts it back. With nothing taken,
    /// it reports "not ready" at once.
    fn drive_taken<Cx>(&self, taken: Option<S>, cx: &mut Cx, close: bool) -> (r: Poll<(), S::SinkError>) where
        S: Sink<Cx, SinkItem = T>,

        requires
            taken matches Some(s) ==> s.wf_sink(),
        ensures
            taken is None ==> r == Poll::<(), S::SinkError>::Ok(Async::NotReady),
            taken matches Some(s) ==> Self::driven_from::<Cx>(s, close, r),
    {
        match taken {
            Some(mut inner) => {
                let ghost s0 = inner;
                let r = if close {
                    inner.close(cx)
                } else {
                    inner.poll_complete(cx)
                };
                assert(Self::drive_step::<Cx>(s0, inner, close, r));
                self.0.release(inner);
                r
            },
            None => Ok(Async::NotReady),
        }
    }
}

impl<Cx, S: Sink<Cx, SinkItem = T>, T> Sink<Cx> for SplitSink<S, T> {
    type SinkItem = T;

    type SinkError = S::SinkError;

    /// Every state of the shared object is well formed.
    open spec fn wf_sink(&self) -> bool {
        forall|s: S| #[trigger] s.wf_sink()
    }

    open spec fn accepted(&self) -> Seq<T> {
        self.accepted_here()
    }

    /// The last send through this half was rejected.
    open spec fn is_full(&self) -> bool {
        self.full_here()
    }

    /// The last flush through this half reported `Ready`.
    open spec fn flushed(&self) -> bool {
        self.flushed_here()
    }

    /// The last close through this half reported `Ready`.
    open spec fn closed(&self) -> bool {
        self.closed_here()
    }

    /// The failures of the shared object, passed on unchanged.
    open spec fn reports(e: S::SinkError) -> bool {
        S::reports(e)
    }

    /// Sends `item` to the object, unless the other half has it: then the
    /// item is handed back.
    fn start_send(&mut self, cx: &mut Cx, item: T) -> (r: StartSend<T, S::SinkError>)
        ensures
            final(self).pairs_with_same(old(self)),
    {
        let taken = self.0.try_acquire();
        let r = self.send_taken(taken, cx, item);
        if let Ok(AsyncSink::Ready) = r {
            self.1 = Ghost(self.1@.push(item));
        }
        self.4 = Ghost(r matches Ok(AsyncSink::NotReady(_)));
        r
    }

    fn poll_complete(&mut self, cx: &mut Cx) -> (r: Poll<(), S::SinkError>)
        ensures
            final(self).pairs_with_same(old(self)),
    {
        let taken = self.0.try_acquire();
        let r = self.drive_taken(taken, cx, false);
        self.2 = Ghost(r matches Ok(Async::Ready(_)));
        r
    }

    fn close(&mut self, cx: &mut Cx) -> (r: Poll<(), S::SinkError>)
        ensures
            final(self).pairs_with_same(old(self)),
    {
        let taken = self.0.try_acquire();
        let r = self.drive_taken(taken, cx, true);
        self.3 = Ghost(r matches Ok(Async::Ready(_)));
        r
    }
}

impl<S, T> SplitSink<S, T> {
    /// Both write halves share one lock.
    pub closed spec fn pairs_with_same(&self, other: &Self) -> bool {
        self.0 == other.0
    }
}

impl<S, T> ReuniteError<S, T> {
    /// A short description of the error.
    pub fn description(&self) -> &'static str {
        "tried to reunite a SplitStream and SplitSink that don't form a pair"
    }
}

} // verus!
