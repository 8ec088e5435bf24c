use tower::discover::{Change, Discover, List};
use tower::either::{Either, EitherService};
use tower::load::{Constant, Load};
use tower::option_service::{Error, OptionService};
use tower::service::{Async, Future, Service};
use tower::service_fn::NewServiceFn;

/// A future that resolves immediately with a preset outcome.
struct Now<T, E>(Option<Result<T, E>>);

impl<T, E> Future for Now<T, E> {
    type Item = T;
    type Error = E;

    fn poll(&mut self) -> Result<Async<T>, E> {
        match self.0.take().expect("polled after completion") {
            Ok(v) => Ok(Async::Ready(v)),
            Err(e) => Err(e),
        }
    }
}

/// Adds a fixed amount to each request.
#[derive(Clone)]
struct Adder {
    amount: u8,
    fail: bool,
}

impl Service<u8> for Adder {
    type Response = u8;
    type Error = &'static str;
    type Future = Now<u8, &'static str>;

    fn poll_ready(&mut self) -> Result<Async<()>, &'static str> {
        Ok(Async::Ready(()))
    }

    fn call(&mut self, request: u8) -> Now<u8, &'static str> {
        if self.fail {
            Now(Some(Err("adder failed")))
        } else {
            Now(Some(Ok(request + self.amount)))
        }
    }
}

#[test]
fn list_yields_each_service_once_in_order() {
    let mut feed: List<Adder, u8> =
        List::new(vec![Adder { amount: 1, fail: false }, Adder { amount: 2, fail: false }]);

    match feed.poll() {
        Ok(Async::Ready(Change::Insert(key, mut service))) => {
            assert_eq!(key, 0);
            assert!(matches!(service.call(10).poll(), Ok(Async::Ready(11))));
        },
        _ => panic!("first service expected"),
    }
    match feed.poll() {
        Ok(Async::Ready(Change::Insert(key, mut service))) => {
            assert_eq!(key, 1);
            assert!(matches!(service.call(10).poll(), Ok(Async::Ready(12))));
        },
        _ => panic!("second service expected"),
    }
    assert!(matches!(feed.poll(), Ok(Async::NotReady)));
    assert!(matches!(feed.poll(), Ok(Async::NotReady)));
}

#[test]
fn constant_reports_its_load_and_forwards_calls() {
    let mut wrapped = Constant::new(Adder { amount: 3, fail: false }, 42u32);
    assert_eq!(wrapped.load(), 42);
    assert!(matches!(wrapped.poll_ready(), Ok(Async::Ready(()))));
    assert!(matches!(wrapped.call(4).poll(), Ok(Async::Ready(7))));
}

#[test]
fn constant_wraps_every_discovered_service_with_the_same_load() {
    let feed: List<Adder, u8> = List::new(vec![Adder { amount: 5, fail: false }]);
    let mut annotated = Constant::new(feed, 9u32);
    match annotated.poll() {
        Ok(Async::Ready(Change::Insert(key, service))) => {
            assert_eq!(key, 0);
            assert_eq!(service.load(), 9);
        },
        _ => panic!("insertion expected"),
    }
    assert!(matches!(annotated.poll(), Ok(Async::NotReady)));
}

#[test]
fn either_service_dispatches_to_the_side_it_was_built_around() {
    let mut left: EitherService<Adder, Adder, u8> = EitherService::a(Adder { amount: 1, fail: false });
    let mut right: EitherService<Adder, Adder, u8> = EitherService::b(Adder { amount: 2, fail: false });

    assert!(matches!(left.poll_ready(), Ok(Async::Ready(()))));
    assert!(matches!(right.poll_ready(), Ok(Async::Ready(()))));

    let mut lf = left.call(10);
    assert!(matches!(lf, Either::A(_)));
    assert!(matches!(lf.poll(), Ok(Async::Ready(11))));

    let mut rf = right.call(10);
    assert!(matches!(rf, Either::B(_)));
    assert!(matches!(rf.poll(), Ok(Async::Ready(12))));
}

#[test]
fn absent_option_service_is_ready_and_answers_with_the_absence_error() {
    let mut empty: OptionService<Adder, u8> = OptionService::none();
    assert!(matches!(empty.poll_ready(), Ok(Async::Ready(()))));
    let mut response = empty.call(1);
    assert!(matches!(response.poll(), Err(Error::Missing)));
}

#[test]
fn held_option_service_forwards_and_wraps_inner_errors() {
    let mut held: OptionService<Adder, u8> = OptionService::some(Adder { amount: 4, fail: false });
    assert!(matches!(held.poll_ready(), Ok(Async::Ready(()))));
    assert!(matches!(held.call(6).poll(), Ok(Async::Ready(10))));

    let mut failing: OptionService<Adder, u8> = OptionService::some(Adder { amount: 0, fail: true });
    assert!(matches!(failing.call(6).poll(), Err(Error::Inner("adder failed"))));
}

#[test]
fn closure_factory_hands_out_fresh_creation_futures() {
    let factory: NewServiceFn<_, u8> = NewServiceFn::new(|| -> Now<Adder, &'static str> {
        Now(Some(Ok(Adder { amount: 2, fail: false })))
    });
    let mut creation = factory.new_service();
    match creation.poll() {
        Ok(Async::Ready(mut service)) => {
            assert!(matches!(service.call(3).poll(), Ok(Async::Ready(5))));
        },
        _ => panic!("creation should resolve"),
    }
    let mut again = factory.new_service();
    assert!(matches!(again.poll(), Ok(Async::Ready(_))));
}
