use std::collections::VecDeque;

use futures_poll::sink::buffer;
use futures_poll::sink::from_err;
use futures_poll::sink::with;
use futures_poll::sink::with_flat_map;
use futures_poll::{Async, AsyncSink, Future, Poll, Sink, StartSend, Stream};

/// Holds at most `room` items; a flush, once `flushing` is set, moves them
/// to `received`.
struct Slots {
    room: usize,
    flushing: bool,
    held: Vec<u32>,
    received: Vec<u32>,
    closed: bool,
}

fn slots(room: usize) -> Slots {
    Slots { room, flushing: true, held: Vec::new(), received: Vec::new(), closed: false }
}

impl Sink<()> for Slots {
    type SinkItem = u32;
    type SinkError = String;

    fn start_send(&mut self, _cx: &mut (), item: u32) -> StartSend<u32, String> {
        if item == 666 {
            return Err("refused".to_string());
        }
        if self.held.len() >= self.room {
            return Ok(AsyncSink::NotReady(item));
        }
        self.held.push(item);
        Ok(AsyncSink::Ready)
    }

    fn poll_complete(&mut self, _cx: &mut ()) -> Poll<(), String> {
        if !self.flushing {
            return Ok(Async::NotReady);
        }
        self.received.append(&mut self.held);
        Ok(Async::Ready(()))
    }

    fn close(&mut self, cx: &mut ()) -> Poll<(), String> {
        self.closed = true;
        self.poll_complete(cx)
    }
}

/// A computation that is ready after one "not ready".
struct Later(Option<u32>, bool);

impl Future<()> for Later {
    type Item = u32;
    type Error = String;

    fn poll(&mut self, _cx: &mut ()) -> Poll<u32, String> {
        if !self.1 {
            self.1 = true;
            return Ok(Async::NotReady);
        }
        Ok(Async::Ready(self.0.take().expect("polled after completion")))
    }
}

struct Items(VecDeque<u32>);

impl Stream<()> for Items {
    type Item = u32;
    type Error = String;

    fn poll(&mut self, _cx: &mut ()) -> Poll<Option<u32>, String> {
        Ok(Async::Ready(self.0.pop_front()))
    }
}

#[test]
fn buffer_keeps_every_item_in_order() {
    let mut sink = slots(1);
    sink.flushing = false;
    let mut b = buffer::new(sink, 2);
    let mut rejected = Vec::new();
    for i in 1..=6u32 {
        match b.start_send(&mut (), i) {
            Ok(AsyncSink::Ready) => {},
            Ok(AsyncSink::NotReady(x)) => rejected.push(x),
            Err(e) => panic!("{}", e),
        }
    }
    // one item is in the wrapped consumer, three are pending: 5 and 6 came back
    assert_eq!(rejected, vec![5, 6]);
    b.get_mut().flushing = true;
    let mut rounds = 0;
    while b.poll_complete(&mut ()) == Ok(Async::NotReady) {
        rounds += 1;
        assert!(rounds < 10);
    }
    assert_eq!(b.get_ref().received, vec![1, 2, 3, 4]);
    for x in rejected {
        assert_eq!(b.start_send(&mut (), x), Ok(AsyncSink::Ready));
    }
    while b.poll_complete(&mut ()) == Ok(Async::NotReady) {}
    assert_eq!(b.into_inner().received, vec![1, 2, 3, 4, 5, 6]);
}

#[test]
fn buffer_rejects_only_above_capacity() {
    let mut b = buffer::new(slots(0), 1);
    assert_eq!(b.start_send(&mut (), 1), Ok(AsyncSink::Ready));
    assert_eq!(b.start_send(&mut (), 2), Ok(AsyncSink::Ready));
    assert_eq!(b.start_send(&mut (), 3), Ok(AsyncSink::NotReady(3)));
}

#[test]
fn buffer_with_capacity_zero_holds_one() {
    let mut b = buffer::new(slots(0), 0);
    assert_eq!(b.start_send(&mut (), 7), Ok(AsyncSink::Ready));
    assert_eq!(b.start_send(&mut (), 8), Ok(AsyncSink::NotReady(8)));
    b.get_mut().room = 5;
    assert_eq!(b.poll_complete(&mut ()), Ok(Async::Ready(())));
    assert_eq!(b.get_ref().received, vec![7]);
}

#[test]
fn buffer_close_drains_first() {
    let mut b = buffer::new(slots(0), 4);
    for i in 0..3u32 {
        assert_eq!(b.start_send(&mut (), i), Ok(AsyncSink::Ready));
    }
    assert_eq!(b.close(&mut ()), Ok(Async::NotReady));
    assert!(!b.get_ref().closed);
    b.get_mut().room = 3;
    assert_eq!(b.close(&mut ()), Ok(Async::Ready(())));
    assert!(b.get_ref().closed);
    assert_eq!(b.get_ref().received, vec![0, 1, 2]);
}

#[test]
fn buffer_passes_failure() {
    let mut b = buffer::new(slots(0), 4);
    assert_eq!(b.start_send(&mut (), 666), Ok(AsyncSink::Ready));
    b.get_mut().room = 1;
    assert_eq!(b.poll_complete(&mut ()), Err("refused".to_string()));
}

#[test]
fn with_runs_each_item_through_computation() {
    let mut w = with::new(slots(10), |x: u32| Later(Some(x * 2), false));
    assert_eq!(w.start_send(&mut (), 1), Ok(AsyncSink::Ready));
    // the computation for 1 is not through yet: one item in flight at a time
    assert_eq!(w.start_send(&mut (), 2), Ok(AsyncSink::NotReady(2)));
    assert_eq!(w.start_send(&mut (), 2), Ok(AsyncSink::Ready));
    while w.poll_complete(&mut ()) == Ok(Async::NotReady) {}
    assert_eq!(w.get_ref().received, vec![2, 4]);
    assert_eq!(w.close(&mut ()), Ok(Async::Ready(())));
    assert!(w.into_inner().closed);
}

#[test]
fn with_flat_map_expands_items() {
    let mut w = with_flat_map::new(slots(2), |x: u32| Items((0..x).collect()));
    assert_eq!(w.start_send(&mut (), 3), Ok(AsyncSink::Ready));
    // two items went in, one waits: the next send is rejected
    assert_eq!(w.start_send(&mut (), 1), Ok(AsyncSink::NotReady(1)));
    assert_eq!(w.poll_complete(&mut ()), Ok(Async::NotReady));
    w.get_mut().room = 10;
    assert_eq!(w.poll_complete(&mut ()), Ok(Async::Ready(())));
    assert_eq!(w.start_send(&mut (), 1), Ok(AsyncSink::Ready));
    assert_eq!(w.poll_complete(&mut ()), Ok(Async::Ready(())));
    assert_eq!(w.get_ref().received, vec![0, 1, 2, 0]);
}

#[derive(Debug, PartialEq)]
struct Wrapped(String);

impl From<String> for Wrapped {
    fn from(s: String) -> Wrapped {
        Wrapped(s)
    }
}

#[test]
fn sink_from_err_converts() {
    let mut s = from_err::new::<_, Wrapped>(slots(1));
    assert_eq!(s.start_send(&mut (), 1), Ok(AsyncSink::Ready));
    assert_eq!(s.start_send(&mut (), 2), Ok(AsyncSink::NotReady(2)));
    assert_eq!(s.start_send(&mut (), 666), Err(Wrapped("refused".to_string())));
    assert_eq!(s.poll_complete(&mut ()), Ok(Async::Ready(())));
    assert_eq!(s.get_ref().received, vec![1]);
}
