//! The core asynchronous contracts: futures, services and service factories.

use vstd::prelude::*;

verus! {

/// The outcome of polling an asynchronous step: either the value is
/// available now, or the caller must poll again once it has been woken.
#[derive(Debug, PartialEq, Eq)]
pub enum Async<T> {
    Ready(T),
    NotReady,
}

/// A computation advanced by polling.  `Ok(Async::Ready(v))` delivers the
/// final value; a completed future must not be polled again.
pub trait Future {
    type Item;
    type Error;

    fn poll(&mut self) -> Result<Async<Self::Item>, Self::Error>;
}

/// A capability that asynchronously turns one request into one response or
/// an error.  A caller must observe `poll_ready` return `Ready` before each
/// `call`; the service queues nothing on its own.
pub trait Service<Request> {
    type Response;
    type Error;
    type Future: Future<Item = Self::Response, Error = Self::Error>;

    fn poll_ready(&mut self) -> Result<Async<()>, Self::Error>;

    fn call(&mut self, request: Request) -> Self::Future;
}

/// A factory that asynchronously produces a fresh service instance.
pub trait NewService<Request> {
    type Response;
    type Error;
    type Service: Service<Request, Response = Self::Response, Error = Self::Error>;
    type InitError;
    type Future: Future<Item = Self::Service, Error = Self::InitError>;

    fn new_service(&self) -> Self::Future;
}

} // verus!
