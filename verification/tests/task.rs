use std::sync::atomic::{AtomicUsize, Ordering};
use std::sync::Arc;
use std::task::{Wake, Waker};

use spdk::errors::{Errno, EINVAL};
use spdk::task::promise::{finish_request, keep, poll_promise, PromiseState};
use spdk::task::result_state::ResultState;
use spdk::task::task_state::TaskState;
use spdk::task::yield_now::YieldNow;
use spdk::task::{poller_status, Poll, Polled, PolledFn, SPDK_POLLER_BUSY, SPDK_POLLER_IDLE};
use spdk::time::IntervalInner;

struct Counter(AtomicUsize);

impl Wake for Counter {
    fn wake(self: Arc<Self>) {
        self.0.fetch_add(1, Ordering::SeqCst);
    }
}

fn counting_waker() -> (Arc<Counter>, Waker) {
    let c = Arc::new(Counter(AtomicUsize::new(0)));
    (c.clone(), Waker::from(c))
}

fn wakes(c: &Arc<Counter>) -> usize {
    c.0.load(Ordering::SeqCst)
}

#[test]
fn result_set_before_poll_is_delivered() {
    let (_c, w) = counting_waker();
    let mut r: ResultState<u32> = ResultState::new();
    assert!(r.set_result(42).is_none());
    assert!(matches!(r.poll_result(w), Poll::Ready(42)));
    assert!(matches!(r, ResultState::Consumed));
}

#[test]
fn result_poll_before_set_registers_waker() {
    let (c, w) = counting_waker();
    let mut r: ResultState<&str> = ResultState::new();
    assert!(matches!(r.poll_result(w.clone()), Poll::Pending));
    assert!(matches!(r.poll_result(w.clone()), Poll::Pending));
    r.set_result("done").expect("waker registered").wake();
    assert_eq!(wakes(&c), 1);
    assert!(matches!(r.poll_result(w), Poll::Ready("done")));
}

#[test]
fn result_set_returns_registered_waker() {
    let (c, w) = counting_waker();
    let mut r: ResultState<u8> = ResultState::new();
    assert!(matches!(r.poll_result(w), Poll::Pending));
    let returned = r.set_result(1).expect("waker registered");
    returned.wake();
    assert_eq!(wakes(&c), 1);
}

#[test]
fn promise_kept_before_poll() {
    let (c, w) = counting_waker();
    let mut p: PromiseState<u32> = PromiseState::new();
    p.set_requesting();
    assert!(keep(&mut p, Ok(5)).is_none());
    assert_eq!(wakes(&c), 0);
    assert!(matches!(poll_promise(&mut p, w), Poll::Ready(Ok(5))));
    assert!(matches!(p, PromiseState::Fulfilled));
}

#[test]
fn promise_kept_after_poll_wakes() {
    let (c, w) = counting_waker();
    let mut p: PromiseState<u32> = PromiseState::new();
    p.set_requesting();
    finish_request(&mut p, Poll::Pending);
    assert!(matches!(poll_promise(&mut p, w.clone()), Poll::Pending));
    assert!(matches!(poll_promise(&mut p, w.clone()), Poll::Pending));
    assert!(matches!(p, PromiseState::Waiting(_)));
    keep(&mut p, Err(Errno(EINVAL))).expect("waker registered").wake();
    assert_eq!(wakes(&c), 1);
    assert!(matches!(poll_promise(&mut p, w), Poll::Ready(Err(Errno(EINVAL)))));
}

#[test]
fn promise_ready_at_start() {
    let (_c, w) = counting_waker();
    let mut p: PromiseState<&str> = PromiseState::new();
    p.set_requesting();
    finish_request(&mut p, Poll::Ready(Ok("now")));
    assert!(matches!(poll_promise(&mut p, w), Poll::Ready(Ok("now"))));
}

#[test]
fn promise_state_poll_returns_previous_state() {
    let (_c, w) = counting_waker();
    let mut p: PromiseState<u8> = PromiseState::new();
    p.set_requesting();
    assert!(matches!(p.poll(w.clone()), PromiseState::Requesting));
    assert!(matches!(p.poll(w.clone()), PromiseState::Waiting(_)));
    assert!(matches!(p.set_kept(Ok(3)), PromiseState::Waiting(_)));
    assert!(matches!(p.poll(w), PromiseState::Kept(Ok(3))));
    assert!(matches!(p, PromiseState::Fulfilled));
}

#[test]
fn task_state_runs() {
    let mut s = TaskState::new();
    assert!(s.begin_run());
    assert_eq!(s, TaskState::Polling);
    assert!(!s.begin_run());
    assert_eq!(s, TaskState::Polling);
    s.end_run(false);
    assert_eq!(s, TaskState::Pending);
    assert!(s.begin_run());
    s.end_run(true);
    assert_eq!(s, TaskState::Done);
}

#[test]
fn task_state_transitions() {
    let mut s = TaskState::Pending;
    assert_eq!(s.poll(), TaskState::Pending);
    assert_eq!(s.poll(), TaskState::Polling);
    s.mark_pending();
    assert_eq!(s, TaskState::Pending);
    s.poll();
    s.mark_done();
    assert_eq!(s, TaskState::Done);
}

#[test]
fn yield_now_pends_once() {
    let (c, w) = counting_waker();
    let mut y = YieldNow::new();
    let (p, back) = y.poll(w.clone());
    assert!(matches!(p, Poll::Pending));
    back.expect("waker handed back").wake();
    assert_eq!(wakes(&c), 1);
    assert!(matches!(y.poll(w.clone()), (Poll::Ready(()), None)));
    assert!(matches!(y.poll(w), (Poll::Ready(()), None)));
    assert_eq!(wakes(&c), 1);
}

#[test]
fn interval_ticks_after_period() {
    let (c, w) = counting_waker();
    let mut i = IntervalInner::new();
    assert!(i.period_elapsed().is_none());
    assert!(matches!(i.poll_tick(w.clone()), Poll::Ready(())));
    assert!(matches!(i.poll_tick(w.clone()), Poll::Pending));
    i.period_elapsed().expect("waker registered").wake();
    assert_eq!(wakes(&c), 1);
    assert!(i.period_elapsed().is_none());
    assert!(matches!(i.poll_tick(w.clone()), Poll::Ready(())));
    assert!(matches!(i.poll_tick(w), Poll::Pending));
}

#[test]
fn poller_status_values() {
    assert_eq!(poller_status(true), SPDK_POLLER_BUSY);
    assert_eq!(poller_status(false), SPDK_POLLER_IDLE);
}

#[test]
fn polled_fn_calls_function() {
    let mut n = 0;
    let mut f = PolledFn(move || {
        n += 1;
        n % 2 == 0
    });
    assert!(!Polled::poll(&mut f));
    assert!(Polled::poll(&mut f));
}
