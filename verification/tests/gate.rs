use std::cell::Cell;
use std::rc::Rc;

use tower::filter::{Error, Filter, Predicate, State};
use tower::service::{Async, Future, Service};

/// A future that resolves immediately with a preset outcome.
struct Now<T, E>(Option<Result<T, E>>);

impl<T, E> Future for Now<T, E> {
    type Item = T;
    type Error = E;

    fn poll(&mut self) -> Result<Async<T>, E> {
        match self.0.take().expect("polled after completion") {
            Ok(v) => Ok(Async::Ready(v)),
            Err(e) => Err(e),
        }
    }
}

/// A future that stays pending a given number of polls, then resolves.
struct Eventually<T, E> {
    pending: usize,
    outcome: Option<Result<T, E>>,
}

impl<T, E> Future for Eventually<T, E> {
    type Item = T;
    type Error = E;

    fn poll(&mut self) -> Result<Async<T>, E> {
        if self.pending > 0 {
            self.pending -= 1;
            return Ok(Async::NotReady);
        }
        match self.outcome.take().expect("polled after completion") {
            Ok(v) => Ok(Async::Ready(v)),
            Err(e) => Err(e),
        }
    }
}

#[derive(Clone)]
struct EchoService {
    calls: Rc<Cell<usize>>,
    fail_ready: bool,
}

impl EchoService {
    fn new() -> EchoService {
        EchoService { calls: Rc::new(Cell::new(0)), fail_ready: false }
    }
}

impl Service<u32> for EchoService {
    type Response = u32;
    type Error = &'static str;
    type Future = Now<u32, &'static str>;

    fn poll_ready(&mut self) -> Result<Async<()>, &'static str> {
        if self.fail_ready {
            Err("ready failed")
        } else {
            Ok(Async::Ready(()))
        }
    }

    fn call(&mut self, request: u32) -> Now<u32, &'static str> {
        self.calls.set(self.calls.get() + 1);
        Now(Some(Ok(request + 1)))
    }
}

struct ApproveAll;

impl Predicate<u32> for ApproveAll {
    type Error = &'static str;
    type Future = Now<(), &'static str>;

    fn check(&mut self, _request: &u32) -> Now<(), &'static str> {
        Now(Some(Ok(())))
    }
}

struct RejectAll;

impl Predicate<u32> for RejectAll {
    type Error = &'static str;
    type Future = Now<(), &'static str>;

    fn check(&mut self, _request: &u32) -> Now<(), &'static str> {
        Now(Some(Err("rejected")))
    }
}

struct SlowApprove;

impl Predicate<u32> for SlowApprove {
    type Error = &'static str;
    type Future = Eventually<(), &'static str>;

    fn check(&mut self, _request: &u32) -> Eventually<(), &'static str> {
        Eventually { pending: 1, outcome: Some(Ok(())) }
    }
}

#[test]
fn buffer_one_admits_one_and_rejects_the_racer() {
    // Buffer of one, checker approves everything: call A is admitted and
    // takes the slot; concurrent call B fails immediately with the
    // capacity error; once A completes, a later call C succeeds.
    let service = EchoService::new();
    let mut gate: Filter<EchoService, ApproveAll, u32> = Filter::new(service.clone(), ApproveAll, 1);

    assert!(matches!(gate.poll_ready(), Ok(Async::Ready(()))));

    let mut a = gate.call(10);
    assert!(a.inner.is_some());
    assert_eq!(gate.counts.rem, 0);

    let mut b = gate.call(20);
    assert!(b.inner.is_none());
    assert!(matches!(b.poll(&mut gate.counts), Err(Error::NoCapacity)));
    assert_eq!(gate.counts.rem, 0);

    match a.poll(&mut gate.counts) {
        Ok(Async::Ready(v)) => assert_eq!(v, 11),
        _ => panic!("call A should resolve"),
    }
    assert_eq!(gate.counts.rem, 1);

    let mut c = gate.call(30);
    match c.poll(&mut gate.counts) {
        Ok(Async::Ready(v)) => assert_eq!(v, 31),
        _ => panic!("call C should resolve"),
    }
    assert_eq!(gate.counts.rem, 1);
    assert_eq!(service.calls.get(), 2);
}

#[test]
fn waiter_is_woken_when_capacity_returns_from_zero() {
    let mut gate: Filter<EchoService, ApproveAll, u32> =
        Filter::new(EchoService::new(), ApproveAll, 1);

    assert!(matches!(gate.poll_ready(), Ok(Async::Ready(()))));
    let mut a = gate.call(1);
    assert_eq!(gate.counts.rem, 0);

    // The blocked caller registers itself and observes no capacity.
    assert!(matches!(gate.poll_ready(), Ok(Async::NotReady)));
    assert!(gate.counts.waiter);
    assert!(!gate.counts.woken);

    // Completing A returns the slot from zero: the waiter must be woken,
    // and the next readiness poll observes the free slot.
    assert!(matches!(a.poll(&mut gate.counts), Ok(Async::Ready(2))));
    assert!(gate.counts.woken);
    assert_eq!(gate.counts.rem, 1);
    assert!(matches!(gate.poll_ready(), Ok(Async::Ready(()))));
}

#[test]
fn rejection_carries_the_checker_error_and_restores_capacity() {
    let service = EchoService::new();
    let mut gate: Filter<EchoService, RejectAll, u32> = Filter::new(service.clone(), RejectAll, 3);

    let mut a = gate.call(10);
    assert_eq!(gate.counts.rem, 2);
    assert!(matches!(a.poll(&mut gate.counts), Err(Error::Rejected("rejected"))));
    assert_eq!(gate.counts.rem, 3);
    // The inner service was never called.
    assert_eq!(service.calls.get(), 0);
}

#[test]
fn inner_readiness_failure_surfaces_and_restores_capacity() {
    let mut service = EchoService::new();
    service.fail_ready = true;
    let mut gate: Filter<EchoService, ApproveAll, u32> = Filter::new(service.clone(), ApproveAll, 2);

    let mut a = gate.call(10);
    assert_eq!(gate.counts.rem, 1);
    assert!(matches!(a.poll(&mut gate.counts), Err(Error::Inner("ready failed"))));
    assert_eq!(gate.counts.rem, 2);
    assert_eq!(service.calls.get(), 0);
}

#[test]
fn slot_stays_taken_while_the_check_is_pending() {
    let mut gate: Filter<EchoService, SlowApprove, u32> =
        Filter::new(EchoService::new(), SlowApprove, 1);

    let mut a = gate.call(10);
    assert_eq!(gate.counts.rem, 0);
    // First poll: the check is still pending, the slot stays out.
    assert!(matches!(a.poll(&mut gate.counts), Ok(Async::NotReady)));
    assert_eq!(gate.counts.rem, 0);
    // Second poll: approval, dispatch, response; the slot is back.
    assert!(matches!(a.poll(&mut gate.counts), Ok(Async::Ready(11))));
    assert_eq!(gate.counts.rem, 1);
}

#[test]
fn abandoning_a_pending_call_releases_its_slot() {
    let mut gate: Filter<EchoService, SlowApprove, u32> =
        Filter::new(EchoService::new(), SlowApprove, 1);

    let mut a = gate.call(10);
    assert!(matches!(a.poll(&mut gate.counts), Ok(Async::NotReady)));
    assert_eq!(gate.counts.rem, 0);

    // Dropping the pending call must give the slot back.
    let call = a.inner.as_mut().expect("admitted");
    call.state.abandon(&mut gate.counts);
    assert!(matches!(call.state, State::NoCapacity));
    assert_eq!(gate.counts.rem, 1);
}

#[test]
fn interleaved_calls_never_exceed_the_buffer_and_restore_it() {
    // Two slots, three callers: A and B are admitted and hold the slots,
    // C is turned away; completing A and B in either order restores both
    // slots, exactly once each.
    let service = EchoService::new();
    let mut gate: Filter<EchoService, SlowApprove, u32> = Filter::new(service, SlowApprove, 2);

    let mut a = gate.call(1);
    let mut b = gate.call(2);
    assert_eq!(gate.counts.rem, 0);
    let mut c = gate.call(3);
    assert!(matches!(c.poll(&mut gate.counts), Err(Error::NoCapacity)));

    // Interleave: both pending their checks, the slots stay out.
    assert!(matches!(a.poll(&mut gate.counts), Ok(Async::NotReady)));
    assert!(matches!(b.poll(&mut gate.counts), Ok(Async::NotReady)));
    assert_eq!(gate.counts.rem, 0);

    // B finishes first, then A: one slot back per completion.
    assert!(matches!(b.poll(&mut gate.counts), Ok(Async::Ready(3))));
    assert_eq!(gate.counts.rem, 1);
    assert!(matches!(a.poll(&mut gate.counts), Ok(Async::Ready(2))));
    assert_eq!(gate.counts.rem, 2);
}

#[test]
fn readiness_tracks_the_counter_exactly() {
    let mut gate: Filter<EchoService, ApproveAll, u32> =
        Filter::new(EchoService::new(), ApproveAll, 2);
    assert!(matches!(gate.poll_ready(), Ok(Async::Ready(()))));
    let _a = gate.call(1);
    assert!(matches!(gate.poll_ready(), Ok(Async::Ready(()))));
    let _b = gate.call(2);
    assert!(matches!(gate.poll_ready(), Ok(Async::NotReady)));
    // The admission race: a call made against a full gate is the error
    // future, and the counter is untouched.
    let mut c = gate.call(3);
    assert!(c.inner.is_none());
    assert_eq!(gate.counts.rem, 0);
    assert!(matches!(c.poll(&mut gate.counts), Err(Error::NoCapacity)));
}
