//! Combines two different service types into a single type, for
//! conditional branching between two inner services of the same request,
//! response and error types.

use core::marker::PhantomData;
use vstd::prelude::*;
use crate::service::{Async, Future, Service};

verus! {

/// One of two futures with the same item and error.
#[derive(Debug)]
pub enum Either<A, B> {
    A(A),
    B(B),
}

impl<A, B> Future for Either<A, B> where A: Future, B: Future<Item = A::Item, Error = A::Error> {
    type Item = A::Item;

    type Error = A::Error;

    fn poll(&mut self) -> Result<Async<A::Item>, A::Error> {
        match self {
            Either::A(a) => a.poll(),
            Either::B(b) => b.poll(),
        }
    }
}

/// One of two services with the same request, response and error types.
pub enum EitherServiceInner<A, B> {
    A(A),
    B(B),
}

/// Dispatches every request to whichever of the two services it was built
/// around.
pub struct EitherService<A, B, R> {
    pub inner: EitherServiceInner<A, B>,
    pub _req: PhantomData<R>,
}

impl<A, B, R> EitherService<A, B, R> where
    A: Service<R>,
    B: Service<R, Response = A::Response, Error = A::Error>,
 {
    /// The combined service backed by the first alternative.
    pub fn a(a: A) -> (r: EitherService<A, B, R>)
        ensures
            r.inner == EitherServiceInner::<A, B>::A(a),
    {
        EitherService { inner: EitherServiceInner::A(a), _req: PhantomData }
    }

    /// The combined service backed by the second alternative.
    pub fn b(b: B) -> (r: EitherService<A, B, R>)
        ensures
            r.inner == EitherServiceInner::<A, B>::B(b),
    {
        EitherService { inner: EitherServiceInner::B(b), _req: PhantomData }
    }
}

impl<A, B, R> Service<R> for EitherService<A, B, R> where
    A: Service<R>,
    B: Service<R, Response = A::Response, Error = A::Error>,
 {
    type Response = A::Response;

    type Error = A::Error;

    type Future = Either<A::Future, B::Future>;

    fn poll_ready(&mut self) -> Result<Async<()>, A::Error> {
        match &mut self.inner {
            EitherServiceInner::A(service) => service.poll_ready(),
            EitherServiceInner::B(service) => service.poll_ready(),
        }
    }

    /// The returned future comes from the same side the service was built
    /// around.
    fn call(&mut self, request: R) -> (r: Either<A::Future, B::Future>)
        ensures
            old(self).inner is A ==> r is A,
            old(self).inner is B ==> r is B,
    {
        match &mut self.inner {
            EitherServiceInner::A(service) => Either::A(service.call(request)),
            EitherServiceInner::B(service) => Either::B(service.call(request)),
        }
    }
}

} // verus!
