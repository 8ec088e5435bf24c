//! The load-annotation surface a balancer consumes: a pure read of a
//! comparable per-instance metric, and the wrapper that pins it to a
//! constant.

use vstd::prelude::*;
use crate::discover::{Change, Discover};
use crate::service::{Async, Service};

verus! {

/// A pure, side-effect-free read of a comparable load value from a service
/// instance; a balancer orders its choices by it.
pub trait Load {
    type Metric;

    fn load(&self) -> Self::Metric;
}

/// Wraps a service — or a whole discovery feed — so that `load` reports a
/// constant value.
#[derive(Debug)]
pub struct Constant<T, M> {
    pub inner: T,
    pub load: M,
}

impl<T, M: Copy> Constant<T, M> {
    pub fn new(inner: T, load: M) -> (r: Constant<T, M>)
        ensures
            r.inner == inner,
            r.load == load,
    {
        Constant { inner, load }
    }
}

impl<T, M: Copy> Load for Constant<T, M> {
    type Metric = M;

    /// Always the constant the wrapper was built with.
    fn load(&self) -> (m: M)
        ensures
            m == self.load,
    {
        self.load
    }
}

impl<S, M, R> Service<R> for Constant<S, M> where S: Service<R>, M: Copy {
    type Response = S::Response;

    type Error = S::Error;

    type Future = S::Future;

    fn poll_ready(&mut self) -> Result<Async<()>, S::Error> {
        self.inner.poll_ready()
    }

    fn call(&mut self, request: R) -> S::Future {
        self.inner.call(request)
    }
}

/// Wraps one membership change with a constant load: an insertion's key is
/// preserved and its service wrapped with the constant, a removal, a
/// pending poll and a discovery error pass through unchanged.
pub fn annotate_change<K, V, M, DE>(outcome: Result<Async<Change<K, V>>, DE>, load: M) -> (r:
    Result<Async<Change<K, Constant<V, M>>>, DE>)
    ensures
        match outcome {
            Ok(Async::Ready(Change::Insert(key, service))) => r == Ok::<
                Async<Change<K, Constant<V, M>>>,
                DE,
            >(Async::Ready(Change::Insert(key, Constant { inner: service, load }))),
            Ok(Async::Ready(Change::Remove(key))) => r == Ok::<
                Async<Change<K, Constant<V, M>>>,
                DE,
            >(Async::Ready(Change::Remove(key))),
            Ok(Async::NotReady) => r == Ok::<Async<Change<K, Constant<V, M>>>, DE>(
                Async::NotReady,
            ),
            Err(e) => r == Err::<Async<Change<K, Constant<V, M>>>, DE>(e),
        },
{
    match outcome {
        Ok(Async::Ready(Change::Insert(key, service))) => Ok(
            Async::Ready(Change::Insert(key, Constant { inner: service, load })),
        ),
        Ok(Async::Ready(Change::Remove(key))) => Ok(Async::Ready(Change::Remove(key))),
        Ok(Async::NotReady) => Ok(Async::NotReady),
        Err(e) => Err(e),
    }
}

/// Proxies the discovery feed so that every inserted service is wrapped
/// with the same constant load.
impl<D, M, R> Discover<R> for Constant<D, M> where D: Discover<R>, M: Copy {
    type Key = D::Key;

    type Response = D::Response;

    type Error = D::Error;

    type Service = Constant<D::Service, M>;

    type DiscoverError = D::DiscoverError;

    /// Yields the next membership change, mapped by [`annotate_change`]:
    /// every inserted service carries this wrapper's constant load under
    /// its original key, and the stored constant itself never changes.
    fn poll(&mut self) -> (r: Result<
        Async<Change<D::Key, Constant<D::Service, M>>>,
        D::DiscoverError,
    >)
        ensures
            final(self).load == old(self).load,
            r matches Ok(Async::Ready(Change::Insert(key, service)))
                ==> service.load == old(self).load,
    {
        let outcome = self.inner.poll();
        annotate_change(outcome, self.load)
    }
}

} // verus!
