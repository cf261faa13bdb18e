use std::cell::Cell;
use std::rc::Rc;

use futures_poll::future::and_then;
use futures_poll::future::contain::contain;
use futures_poll::future::flatten;
use futures_poll::future::from_err;
use futures_poll::future::inspect;
use futures_poll::future::map_err;
use futures_poll::future::or_else;
use futures_poll::future::poll_fn::poll_fn;
use futures_poll::{Async, Future, Poll};

/// Reports "not ready" a given number of times, then its outcome.
struct Delayed<T, E> {
    waits: u32,
    outcome: Option<Result<T, E>>,
    polls: Rc<Cell<u32>>,
}

fn delayed<T, E>(waits: u32, outcome: Result<T, E>) -> Delayed<T, E> {
    Delayed { waits, outcome: Some(outcome), polls: Rc::new(Cell::new(0)) }
}

impl<T, E> Future<()> for Delayed<T, E> {
    type Item = T;
    type Error = E;

    fn poll(&mut self, _cx: &mut ()) -> Poll<T, E> {
        self.polls.set(self.polls.get() + 1);
        if self.waits > 0 {
            self.waits -= 1;
            return Ok(Async::NotReady);
        }
        match self.outcome.take().expect("polled after completion") {
            Ok(t) => Ok(Async::Ready(t)),
            Err(e) => Err(e),
        }
    }
}

fn run<F: Future<()>>(f: &mut F) -> (Result<F::Item, F::Error>, u32) {
    let mut suspended = 0;
    loop {
        match f.poll(&mut ()) {
            Ok(Async::NotReady) => suspended += 1,
            Ok(Async::Ready(v)) => return (Ok(v), suspended),
            Err(e) => return (Err(e), suspended),
        }
    }
}

#[test]
fn and_then_runs_selected_computation() {
    let mut chained = and_then::new(delayed::<u32, String>(2, Ok(20)), |x: u32| delayed::<u32, String>(3, Ok(x + 1)));
    let (result, suspended) = run(&mut chained);
    assert_eq!(result, Ok(21));
    assert_eq!(suspended, 5);
}

#[test]
fn and_then_matches_direct_poll_of_selected() {
    let f = |x: u32| delayed::<u32, String>(1, Ok(x * 3));
    let mut direct = f(7);
    let (direct_result, _) = run(&mut direct);
    let mut chained = and_then::new(delayed::<u32, String>(4, Ok(7)), f);
    let (chained_result, _) = run(&mut chained);
    assert_eq!(direct_result, chained_result);
    assert_eq!(chained_result, Ok(21));
}

#[test]
fn and_then_passes_first_failure() {
    let called = Rc::new(Cell::new(false));
    let c = called.clone();
    let mut chained = and_then::new(delayed::<u32, String>(1, Err("bad".to_string())), move |x: u32| {
        c.set(true);
        delayed::<u32, String>(0, Ok(x))
    });
    let (result, _) = run(&mut chained);
    assert_eq!(result, Err("bad".to_string()));
    assert!(!called.get());
}

#[test]
fn or_else_recovers_from_failure() {
    let mut chained = or_else::new(delayed::<u32, u32>(1, Err(4)), |e: u32| delayed::<u32, u32>(2, Ok(e * 10)));
    let (result, suspended) = run(&mut chained);
    assert_eq!(result, Ok(40));
    assert_eq!(suspended, 3);
}

#[test]
fn or_else_passes_success() {
    let mut chained = or_else::new(delayed::<u32, u32>(0, Ok(9)), |e: u32| delayed::<u32, u32>(0, Ok(e)));
    assert_eq!(run(&mut chained).0, Ok(9));
}

#[test]
fn flatten_runs_inner_computation() {
    let outer = delayed::<Delayed<u32, String>, String>(1, Ok(delayed(2, Ok(5))));
    let mut flat = flatten::new(outer);
    let (result, suspended) = run(&mut flat);
    assert_eq!(result, Ok(5));
    assert_eq!(suspended, 3);
}

#[test]
fn flatten_converts_outer_failure() {
    let outer = delayed::<Delayed<u32, String>, &'static str>(0, Err("outer"));
    let mut flat = flatten::new(outer);
    assert_eq!(run(&mut flat).0, Err("outer".to_string()));
}

#[test]
fn map_err_maps_failure_only() {
    let mut m = map_err::new(delayed::<u32, u32>(2, Err(3)), |e: u32| format!("e{}", e));
    assert_eq!(m.poll(&mut ()), Ok(Async::NotReady));
    assert_eq!(m.poll(&mut ()), Ok(Async::NotReady));
    assert_eq!(m.poll(&mut ()), Err("e3".to_string()));
    let mut ok = map_err::new(delayed::<u32, u32>(0, Ok(8)), |e: u32| format!("e{}", e));
    assert_eq!(ok.poll(&mut ()), Ok(Async::Ready(8)));
}

#[test]
fn from_err_converts_failure() {
    let mut f = from_err::new::<_, u64>(delayed::<u8, u32>(1, Err(7)));
    assert_eq!(f.poll(&mut ()), Ok(Async::NotReady));
    assert_eq!(f.poll(&mut ()), Err(7u64));
}

#[test]
fn inspect_sees_item_once() {
    let seen = Rc::new(Cell::new(0u32));
    let s = seen.clone();
    let mut f = inspect::new(delayed::<u32, ()>(1, Ok(12)), move |x: &u32| s.set(s.get() + *x));
    assert_eq!(run(&mut f).0, Ok(12));
    assert_eq!(seen.get(), 12);
}

#[test]
fn option_of_computation() {
    let mut none: Option<Delayed<u32, ()>> = None;
    assert_eq!(none.poll(&mut ()), Ok(Async::Ready(None)));
    let mut some = Some(delayed::<u32, ()>(1, Ok(3)));
    assert_eq!(some.poll(&mut ()), Ok(Async::NotReady));
    assert_eq!(some.poll(&mut ()), Ok(Async::Ready(Some(3))));
}

#[test]
fn poll_fn_delegates() {
    let mut left = 2u32;
    let mut f = poll_fn(move |_cx: &mut ()| -> Poll<&'static str, ()> {
        if left == 0 {
            Ok(Async::Ready("Hello, World!"))
        } else {
            left -= 1;
            Ok(Async::NotReady)
        }
    });
    assert_eq!(run(&mut f), (Ok("Hello, World!"), 2));
}

#[test]
fn contain_maps_outcomes() {
    let (r, keep) = contain::<u32, String, ()>(Ok(Async::NotReady));
    assert_eq!(r, Ok(Async::NotReady));
    assert!(keep);
    let (r, keep) = contain::<u32, String, ()>(Ok(Async::Ready(4)));
    assert_eq!(r, Ok(Async::Ready(Ok(4))));
    assert!(!keep);
    let (r, keep) = contain::<u32, String, ()>(Err("bad".to_string()));
    assert_eq!(r, Ok(Async::Ready(Err("bad".to_string()))));
    assert!(!keep);
}
