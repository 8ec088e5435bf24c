//! Optionally forwards requests to an inner service; with no inner service
//! every request is answered with the absence error.

use core::marker::PhantomData;
use vstd::prelude::*;
use crate::service::{Async, Future, Service};

verus! {

/// Error produced by `OptionService` responding to a request.
#[derive(Debug)]
pub enum Error<T> {
    /// The inner service failed.
    Inner(T),
    /// There is no inner service.
    Missing,
}

/// Forwards requests to the inner service it may hold.
pub struct OptionService<T, R> {
    pub inner: Option<T>,
    pub _req: PhantomData<R>,
}

/// Response future returned by `OptionService`; with no inner service it
/// resolves straight to the absence error.
pub struct ResponseFuture<T> {
    pub inner: Option<T>,
}

impl<T, R> OptionService<T, R> {
    /// A service that forwards every request to `inner`.
    pub fn some(inner: T) -> (r: OptionService<T, R>)
        ensures
            r.inner == Some(inner),
    {
        OptionService { inner: Some(inner), _req: PhantomData }
    }

    /// A service that answers every request with the absence error.
    pub fn none() -> (r: OptionService<T, R>)
        ensures
            r.inner is None,
    {
        OptionService { inner: None, _req: PhantomData }
    }
}

/// Maps a held inner outcome: successes and pending polls pass through
/// unchanged, and the inner service's failures are wrapped as the inner
/// error — never as the absence error.
pub fn wrap_inner<T, E>(outcome: Result<Async<T>, E>) -> (r: Result<Async<T>, Error<E>>)
    ensures
        match outcome {
            Ok(a) => r == Ok::<Async<T>, Error<E>>(a),
            Err(e) => r == Err::<Async<T>, Error<E>>(Error::Inner(e)),
        },
{
    match outcome {
        Ok(a) => Ok(a),
        Err(e) => Err(Error::Inner(e)),
    }
}

impl<T, R> Service<R> for OptionService<T, R> where T: Service<R> {
    type Response = T::Response;

    type Error = Error<T::Error>;

    type Future = ResponseFuture<T::Future>;

    /// An absent service is always ready; a held one answers for itself,
    /// through [`wrap_inner`].  Readiness never yields the absence error.
    fn poll_ready(&mut self) -> (r: Result<Async<()>, Error<T::Error>>)
        ensures
            old(self).inner is None ==> r == Ok::<Async<()>, Error<T::Error>>(Async::Ready(()))
                && final(self).inner is None,
            !(r matches Err(Error::Missing)),
            old(self).inner is Some <==> final(self).inner is Some,
    {
        match &mut self.inner {
            Some(service) => wrap_inner(service.poll_ready()),
            None => Ok(Async::Ready(())),
        }
    }

    /// The returned future is empty exactly when no inner service is held.
    fn call(&mut self, request: R) -> (r: ResponseFuture<T::Future>)
        ensures
            r.inner is Some <==> old(self).inner is Some,
    {
        match &mut self.inner {
            Some(service) => ResponseFuture { inner: Some(service.call(request)) },
            None => ResponseFuture { inner: None },
        }
    }
}

impl<T> Future for ResponseFuture<T> where T: Future {
    type Item = T::Item;

    type Error = Error<T::Error>;

    /// Resolves with the inner outcome, mapped by [`wrap_inner`]; the
    /// absence error comes exactly when no inner future is held.
    fn poll(&mut self) -> (r: Result<Async<T::Item>, Error<T::Error>>)
        ensures
            (r matches Err(Error::Missing)) <==> old(self).inner is None,
    {
        match &mut self.inner {
            Some(f) => wrap_inner(f.poll()),
            None => Err(Error::Missing),
        }
    }
}

} // verus!
