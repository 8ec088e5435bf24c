use std::cell::{Cell, RefCell};
use std::rc::Rc;

use tower::reconnect::{Error, Reconnect, State};
use tower::service::{Async, Future, NewService, Service};

/// A future that resolves immediately with a preset outcome.
struct Now<T, E>(Option<Result<T, E>>);

impl<T, E> Future for Now<T, E> {
    type Item = T;
    type Error = E;

    fn poll(&mut self) -> Result<Async<T>, E> {
        match self.0.take().expect("polled after completion") {
            Ok(v) => Ok(Async::Ready(v)),
            Err(e) => Err(e),
        }
    }
}

/// A service that adds one to each request; its readiness fails once each
/// time the flag is set.
#[derive(Clone)]
struct Established {
    fail_ready_once: Rc<Cell<bool>>,
}

impl Established {
    fn new() -> Established {
        Established { fail_ready_once: Rc::new(Cell::new(false)) }
    }
}

impl Service<u8> for Established {
    type Response = u8;
    type Error = &'static str;
    type Future = Now<u8, &'static str>;

    fn poll_ready(&mut self) -> Result<Async<()>, &'static str> {
        if self.fail_ready_once.get() {
            self.fail_ready_once.set(false);
            Err("stale connection")
        } else {
            Ok(Async::Ready(()))
        }
    }

    fn call(&mut self, request: u8) -> Now<u8, &'static str> {
        Now(Some(Ok(request + 1)))
    }
}

/// Hands out one scripted creation outcome per `new_service` call.
struct ScriptedFactory {
    creations: Rc<RefCell<Vec<Result<Established, &'static str>>>>,
    asked: Rc<Cell<usize>>,
}

impl ScriptedFactory {
    fn new(creations: Vec<Result<Established, &'static str>>) -> ScriptedFactory {
        ScriptedFactory { creations: Rc::new(RefCell::new(creations)), asked: Rc::new(Cell::new(0)) }
    }
}

impl NewService<u8> for ScriptedFactory {
    type Response = u8;
    type Error = &'static str;
    type Service = Established;
    type InitError = &'static str;
    type Future = Now<Established, &'static str>;

    fn new_service(&self) -> Now<Established, &'static str> {
        self.asked.set(self.asked.get() + 1);
        Now(Some(self.creations.borrow_mut().remove(0)))
    }
}

#[test]
fn creation_failure_surfaces_and_the_next_poll_starts_afresh() {
    // The first creation fails: the error surfaces, the manager is idle
    // (not stuck), and the very next readiness poll makes a fresh attempt
    // that succeeds.
    let factory = ScriptedFactory::new(vec![Err("dial failed"), Ok(Established::new())]);
    let asked = factory.asked.clone();
    let mut manager = Reconnect::new(factory);

    assert!(matches!(manager.poll_ready(), Err(Error::Connect("dial failed"))));
    assert!(matches!(manager.state, State::Idle));
    assert_eq!(asked.get(), 1);

    assert!(matches!(manager.poll_ready(), Ok(Async::Ready(()))));
    assert!(matches!(manager.state, State::Connected(_)));
    assert_eq!(asked.get(), 2);
}

#[test]
fn readiness_failure_reconnects_without_surfacing_the_stale_error() {
    // Once connected, a readiness failure of the established service is
    // not re-exposed: the same readiness poll reverts to idle, creates a
    // fresh connection and reports it ready.
    let first = Established::new();
    let flag = first.fail_ready_once.clone();
    let factory = ScriptedFactory::new(vec![Ok(first), Ok(Established::new())]);
    let asked = factory.asked.clone();
    let mut manager = Reconnect::new(factory);

    assert!(matches!(manager.poll_ready(), Ok(Async::Ready(()))));
    assert_eq!(asked.get(), 1);

    flag.set(true);
    assert!(matches!(manager.poll_ready(), Ok(Async::Ready(()))));
    assert_eq!(asked.get(), 2);
}

#[test]
fn submission_while_not_connected_fails_with_not_ready() {
    let factory = ScriptedFactory::new(vec![]);
    let mut manager = Reconnect::new(factory);
    let mut response = manager.call(9);
    assert!(response.inner.is_none());
    assert!(matches!(response.poll(), Err(Error::NotReady)));
}

#[test]
fn submission_while_connected_reaches_the_service() {
    let factory = ScriptedFactory::new(vec![Ok(Established::new())]);
    let mut manager = Reconnect::new(factory);
    assert!(matches!(manager.poll_ready(), Ok(Async::Ready(()))));
    let mut response = manager.call(9);
    assert!(matches!(response.poll(), Ok(Async::Ready(10))));
}

/// A service whose call future always fails.
#[derive(Clone)]
struct Failing;

impl Service<u8> for Failing {
    type Response = u8;
    type Error = &'static str;
    type Future = Now<u8, &'static str>;

    fn poll_ready(&mut self) -> Result<Async<()>, &'static str> {
        Ok(Async::Ready(()))
    }

    fn call(&mut self, _request: u8) -> Now<u8, &'static str> {
        Now(Some(Err("boom")))
    }
}

struct FailingFactory;

impl NewService<u8> for FailingFactory {
    type Response = u8;
    type Error = &'static str;
    type Service = Failing;
    type InitError = &'static str;
    type Future = Now<Failing, &'static str>;

    fn new_service(&self) -> Now<Failing, &'static str> {
        Now(Some(Ok(Failing)))
    }
}

#[test]
fn inner_call_failures_are_wrapped_as_inner() {
    // A failing call is reported as the inner error, never as a
    // connection error.
    let mut manager = Reconnect::new(FailingFactory);
    assert!(matches!(manager.poll_ready(), Ok(Async::Ready(()))));
    let mut response = manager.call(1);
    assert!(matches!(response.poll(), Err(Error::Inner("boom"))));
}

#[test]
fn an_exhausted_readiness_allowance_reports_not_ready() {
    // With no allowance for immediate transitions, the readiness poll
    // still starts the pending creation — control never returns while
    // idle — then reports not-ready; a later poll completes the
    // connection without asking the factory again.
    let factory = ScriptedFactory::new(vec![Ok(Established::new())]);
    let asked = factory.asked.clone();
    let mut manager = Reconnect::new(factory);
    assert!(matches!(manager.poll_ready_limited(0), Ok(Async::NotReady)));
    assert!(matches!(manager.state, State::Connecting(_)));
    assert_eq!(asked.get(), 1);
    assert!(matches!(manager.poll_ready(), Ok(Async::Ready(()))));
    assert_eq!(asked.get(), 1);
}

#[test]
fn error_descriptions_name_each_kind() {
    let inner: Error<&'static str, &'static str> = Error::Inner("x");
    let connect: Error<&'static str, &'static str> = Error::Connect("y");
    let not_ready: Error<&'static str, &'static str> = Error::NotReady;
    assert_eq!(inner.description(), "inner service error");
    assert_eq!(connect.description(), "connection failed");
    assert_eq!(not_ready.description(), "not ready");
}
