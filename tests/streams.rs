use std::cell::Cell;
use std::collections::VecDeque;
use std::rc::Rc;

use futures_poll::stream::and_then;
use futures_poll::stream::buffer_unordered;
use futures_poll::stream::collect;
use futures_poll::stream::filter;
use futures_poll::stream::flatten;
use futures_poll::stream::for_each;
use futures_poll::stream::from_err;
use futures_poll::stream::fuse;
use futures_poll::stream::futures_unordered::FuturesUnordered;
use futures_poll::stream::or_else;
use futures_poll::stream::peek;
use futures_poll::stream::poll_fn::poll_fn;
use futures_poll::stream::skip;
use futures_poll::stream::split::split;
use futures_poll::stream::take;
use futures_poll::stream::take_while;
use futures_poll::{Async, AsyncSink, Future, Poll, Sink, StartSend, Stream};

/// Reports "not ready" a given number of times, then its outcome; counts
/// how many such computations are started and not finished.
struct Job {
    waits: u32,
    outcome: Option<Result<u32, String>>,
    started: bool,
    running: Rc<Cell<u32>>,
    most: Rc<Cell<u32>>,
}

fn job(waits: u32, outcome: Result<u32, String>, running: &Rc<Cell<u32>>, most: &Rc<Cell<u32>>) -> Job {
    Job { waits, outcome: Some(outcome), started: false, running: running.clone(), most: most.clone() }
}

fn plain(waits: u32, outcome: Result<u32, String>) -> Job {
    let c = Rc::new(Cell::new(0));
    job(waits, outcome, &c, &c.clone())
}

impl Future<()> for Job {
    type Item = u32;
    type Error = String;

    fn poll(&mut self, _cx: &mut ()) -> Poll<u32, String> {
        if !self.started {
            self.started = true;
            self.running.set(self.running.get() + 1);
            if self.running.get() > self.most.get() {
                self.most.set(self.running.get());
            }
        }
        if self.waits > 0 {
            self.waits -= 1;
            return Ok(Async::NotReady);
        }
        self.running.set(self.running.get() - 1);
        match self.outcome.take().expect("polled after completion") {
            Ok(v) => Ok(Async::Ready(v)),
            Err(e) => Err(e),
        }
    }
}

/// Yields its items, then the end; `None` entries stand for "not yet".
/// Polled again after its end, it yields `after_end` once.
struct Items<T> {
    items: VecDeque<Option<Result<T, String>>>,
    ended: bool,
    after_end: Option<T>,
}

fn items<T>(v: Vec<T>) -> Items<T> {
    Items { items: v.into_iter().map(|x| Some(Ok(x))).collect(), ended: false, after_end: None }
}

impl<T> Stream<()> for Items<T> {
    type Item = T;
    type Error = String;

    fn poll(&mut self, _cx: &mut ()) -> Poll<Option<T>, String> {
        match self.items.pop_front() {
            Some(Some(Ok(x))) => Ok(Async::Ready(Some(x))),
            Some(Some(Err(e))) => Err(e),
            Some(None) => Ok(Async::NotReady),
            None if !self.ended => {
                self.ended = true;
                Ok(Async::Ready(None))
            },
            None => Ok(Async::Ready(self.after_end.take())),
        }
    }
}

/// Both a sequence and a consumer: sent items come back out.
struct Echo {
    queue: VecDeque<u32>,
}

impl Stream<()> for Echo {
    type Item = u32;
    type Error = String;

    fn poll(&mut self, _cx: &mut ()) -> Poll<Option<u32>, String> {
        match self.queue.pop_front() {
            Some(x) => Ok(Async::Ready(Some(x))),
            None => Ok(Async::NotReady),
        }
    }
}

impl Sink<()> for Echo {
    type SinkItem = u32;
    type SinkError = String;

    fn start_send(&mut self, _cx: &mut (), item: u32) -> StartSend<u32, String> {
        self.queue.push_back(item);
        Ok(AsyncSink::Ready)
    }

    fn poll_complete(&mut self, _cx: &mut ()) -> Poll<(), String> {
        Ok(Async::Ready(()))
    }

    fn close(&mut self, _cx: &mut ()) -> Poll<(), String> {
        Ok(Async::Ready(()))
    }
}

fn drain<S: Stream<()>>(s: &mut S) -> Vec<Result<S::Item, S::Error>> {
    let mut out = Vec::new();
    let mut idle = 0;
    loop {
        match s.poll(&mut ()) {
            Ok(Async::Ready(Some(x))) => out.push(Ok(x)),
            Ok(Async::Ready(None)) => return out,
            Ok(Async::NotReady) => {
                idle += 1;
                assert!(idle < 1000);
            },
            Err(e) => out.push(Err(e)),
        }
    }
}

#[test]
fn pool_yields_each_result_once() {
    let mut pool = FuturesUnordered::new();
    pool.push(plain(3, Ok(1)));
    pool.push(plain(0, Ok(2)));
    pool.push(plain(1, Err("three".to_string())));
    pool.push(plain(2, Ok(4)));
    assert_eq!(pool.len(), 4);
    let mut results = Vec::new();
    let mut sizes = Vec::new();
    loop {
        match pool.poll(&mut ()) {
            Ok(Async::Ready(Some(v))) => results.push(Ok(v)),
            Ok(Async::Ready(None)) => break,
            Ok(Async::NotReady) => continue,
            Err(e) => results.push(Err(e)),
        }
        sizes.push(pool.len());
    }
    assert_eq!(results, vec![Ok(2), Err("three".to_string()), Ok(1), Ok(4)]);
    assert_eq!(sizes, vec![3, 2, 1, 0]);
    assert!(pool.is_empty());
    assert_eq!(pool.poll(&mut ()), Ok(Async::Ready(None)));
}

#[test]
fn empty_pool_reports_end() {
    let mut pool: FuturesUnordered<Job> = FuturesUnordered::new();
    assert_eq!(pool.poll(&mut ()), Ok(Async::Ready(None)));
}

#[test]
fn buffer_unordered_respects_limit() {
    let running = Rc::new(Cell::new(0));
    let most = Rc::new(Cell::new(0));
    let jobs: Vec<Job> = (0..6u32).map(|i| job(6 - i, Ok(i), &running, &most)).collect();
    let mut b = buffer_unordered::new(items(jobs), 2);
    let out = drain(&mut b);
    assert_eq!(most.get(), 2);
    let mut got: Vec<u32> = out.into_iter().map(|r| r.unwrap()).collect();
    assert_eq!(got[0], 1);
    got.sort();
    assert_eq!(got, vec![0, 1, 2, 3, 4, 5]);
}

#[test]
fn buffer_unordered_with_limit_one_keeps_order() {
    let jobs: Vec<Job> = vec![plain(2, Ok(10)), plain(0, Ok(20)), plain(1, Ok(30))];
    let mut b = buffer_unordered::new(items(jobs), 1);
    assert_eq!(drain(&mut b), vec![Ok(10), Ok(20), Ok(30)]);
}

#[test]
fn fuse_end_is_permanent() {
    let mut inner = items(vec![1u32]);
    inner.after_end = Some(99);
    let mut f = fuse::new(inner);
    assert!(!f.is_done());
    assert_eq!(f.poll(&mut ()), Ok(Async::Ready(Some(1))));
    assert_eq!(f.poll(&mut ()), Ok(Async::Ready(None)));
    assert!(f.is_done());
    assert_eq!(f.poll(&mut ()), Ok(Async::Ready(None)));
    assert_eq!(f.poll(&mut ()), Ok(Async::Ready(None)));
    // the wrapped sequence would have gone on
    assert_eq!(f.into_inner().poll(&mut ()), Ok(Async::Ready(Some(99))));
}

#[test]
fn split_halves_share_object() {
    let (mut w, mut r) = split::<Echo, u32>(Echo { queue: VecDeque::new() });
    assert_eq!(r.poll(&mut ()), Ok(Async::NotReady));
    assert_eq!(w.start_send(&mut (), 5), Ok(AsyncSink::Ready));
    assert_eq!(w.poll_complete(&mut ()), Ok(Async::Ready(())));
    assert_eq!(r.poll(&mut ()), Ok(Async::Ready(Some(5))));
    let whole = r.reunite(w).ok().expect("halves of one split");
    assert!(whole.queue.is_empty());
}

#[test]
fn reunite_rejects_halves_of_different_splits() {
    let (w1, r1) = split::<Echo, u32>(Echo { queue: VecDeque::new() });
    let (w2, r2) = split::<Echo, u32>(Echo { queue: VecDeque::from(vec![7]) });
    let err = match w1.reunite(r2) {
        Ok(_) => panic!("halves of different splits"),
        Err(e) => e,
    };
    assert_eq!(err.description(), "tried to reunite a SplitStream and SplitSink that don't form a pair");
    let (w1, mut r2) = (err.0, err.1);
    assert_eq!(r2.poll(&mut ()), Ok(Async::Ready(Some(7))));
    assert!(w1.reunite(r1).is_ok());
    assert!(r2.reunite(w2).is_ok());
}

#[test]
fn take_stops_after_count() {
    let mut t = take::new(items(vec![1u32, 2, 3]), 2);
    assert_eq!(drain(&mut t), vec![Ok(1), Ok(2)]);
    let mut none = take::new(items(vec![1u32]), 0);
    assert_eq!(none.poll(&mut ()), Ok(Async::Ready(None)));
    let mut short = take::new(items(vec![4u32]), 5);
    assert_eq!(drain(&mut short), vec![Ok(4)]);
}

#[test]
fn skip_drops_first_items() {
    let mut s = skip::new(items(vec![1u32, 2, 3, 4]), 2);
    assert_eq!(drain(&mut s), vec![Ok(3), Ok(4)]);
    let mut all = skip::new(items(vec![1u32]), 3);
    assert_eq!(all.poll(&mut ()), Ok(Async::Ready(None)));
}

#[test]
fn filter_keeps_passing_items() {
    let mut f = filter::new(items(vec![1u32, 2, 3, 4, 5, 6]), |x: &u32| *x % 2 == 0);
    assert_eq!(drain(&mut f), vec![Ok(2), Ok(4), Ok(6)]);
}

#[test]
fn take_while_stops_at_first_failing_test() {
    let mut t = take_while::new(items(vec![1u32, 2, 5, 1]), |x: &u32| plain(1, Ok((*x < 3) as u32)).map_bool());
    assert_eq!(drain(&mut t), vec![Ok(1), Ok(2)]);
    assert_eq!(t.poll(&mut ()), Ok(Async::Ready(None)));
}

/// A test computation over `bool`.
struct BoolJob(Job);

impl Job {
    fn map_bool(self) -> BoolJob {
        BoolJob(self)
    }
}

impl Future<()> for BoolJob {
    type Item = bool;
    type Error = String;

    fn poll(&mut self, cx: &mut ()) -> Poll<bool, String> {
        match self.0.poll(cx) {
            Ok(Async::Ready(v)) => Ok(Async::Ready(v != 0)),
            Ok(Async::NotReady) => Ok(Async::NotReady),
            Err(e) => Err(e),
        }
    }
}

#[test]
fn stream_and_then_runs_computation_per_item() {
    let mut a = and_then::new(items(vec![1u32, 2, 3]), |x: u32| plain(x, Ok(x * 10)));
    assert_eq!(drain(&mut a), vec![Ok(10), Ok(20), Ok(30)]);
}

#[test]
fn stream_or_else_replaces_failures() {
    let mut src = items(vec![1u32]);
    src.items.push_back(Some(Err("x".to_string())));
    src.items.push_back(Some(Ok(3)));
    let mut o = or_else::new(src, |e: String| plain(1, Ok(e.len() as u32 + 100)));
    assert_eq!(drain(&mut o), vec![Ok(1), Ok(101), Ok(3)]);
}

#[test]
fn stream_flatten_chains_inner_sequences() {
    let mut f = flatten::new(items(vec![items(vec![1u32, 2]), items(vec![]), items(vec![3])]));
    assert_eq!(drain(&mut f), vec![Ok(1), Ok(2), Ok(3)]);
}

#[test]
fn peek_shows_next_item_without_taking_it() {
    let mut p = peek::new(items(vec![1u32, 2]));
    assert_eq!(p.peek(&mut ()), Ok(Async::Ready(Some(&1))));
    assert_eq!(p.peek(&mut ()), Ok(Async::Ready(Some(&1))));
    assert_eq!(p.poll(&mut ()), Ok(Async::Ready(Some(1))));
    assert_eq!(p.poll(&mut ()), Ok(Async::Ready(Some(2))));
    assert_eq!(p.peek(&mut ()), Ok(Async::Ready(None)));
}

#[test]
fn collect_gathers_all_items() {
    let mut src = items(vec![1u32, 2]);
    src.items.push_back(None);
    src.items.push_back(Some(Ok(3)));
    let mut c = collect::new(src);
    assert_eq!(c.poll(&mut ()), Ok(Async::NotReady));
    assert_eq!(c.poll(&mut ()), Ok(Async::Ready(vec![1, 2, 3])));
    let mut failing = items(vec![1u32]);
    failing.items.push_back(Some(Err("boom".to_string())));
    let mut c2 = collect::new(failing);
    assert_eq!(c2.poll(&mut ()), Err("boom".to_string()));
}

#[test]
fn for_each_runs_every_item() {
    let total = Rc::new(Cell::new(0u32));
    let t = total.clone();
    let mut f = for_each::new(items(vec![1u32, 2, 3]), move |x: u32| {
        t.set(t.get() + x);
        UnitJob(plain(1, Ok(0)))
    });
    let mut polls = 0;
    while f.poll(&mut ()) == Ok(Async::NotReady) {
        polls += 1;
    }
    assert_eq!(total.get(), 6);
    assert_eq!(polls, 3);
}

/// A test computation over `()`.
struct UnitJob(Job);

impl Future<()> for UnitJob {
    type Item = ();
    type Error = String;

    fn poll(&mut self, cx: &mut ()) -> Poll<(), String> {
        match self.0.poll(cx) {
            Ok(Async::Ready(_)) => Ok(Async::Ready(())),
            Ok(Async::NotReady) => Ok(Async::NotReady),
            Err(e) => Err(e),
        }
    }
}

#[test]
fn stream_from_err_converts() {
    let mut src = items(vec![1u32]);
    src.items.push_back(Some(Err("e".to_string())));
    let mut f = from_err::new::<_, Vec<u8>>(src);
    assert_eq!(f.poll(&mut ()), Ok(Async::Ready(Some(1))));
    assert_eq!(f.poll(&mut ()), Err(b"e".to_vec()));
}

#[test]
fn stream_poll_fn_delegates() {
    let mut counter = 2u32;
    let mut s = poll_fn(move |_cx: &mut ()| -> Poll<Option<u32>, ()> {
        if counter == 0 {
            return Ok(Async::Ready(None));
        }
        counter -= 1;
        Ok(Async::Ready(Some(counter)))
    });
    assert_eq!(s.poll(&mut ()), Ok(Async::Ready(Some(1))));
    assert_eq!(s.poll(&mut ()), Ok(Async::Ready(Some(0))));
    assert_eq!(s.poll(&mut ()), Ok(Async::Ready(None)));
}
