//! Service discovery: a non-blocking feed of membership changes over a set
//! of keyed service instances.

use core::marker::PhantomData;
use vstd::prelude::*;
use crate::service::{Async, Service};

verus! {

/// Provides a changing set of keyed services able to satisfy a request;
/// polling yields one membership change at a time.  Keys must be unique
/// within the set.
pub trait Discover<Request> {
    type Key;
    type Response;
    type Error;
    type Service: Service<Request, Response = Self::Response, Error = Self::Error>;
    type DiscoverError;

    /// Yields the next membership change.
    fn poll(&mut self) -> Result<Async<Change<Self::Key, Self::Service>>, Self::DiscoverError>;
}

/// A change in the service set.
#[derive(Debug)]
pub enum Change<K, V> {
    Insert(K, V),
    Remove(K),
}

/// Static discovery from a predetermined list of services: each service is
/// yielded once, keyed by its position in the list, and the feed is silent
/// after that.
pub struct List<U, R> {
    services: Vec<U>,
    handed_out: usize,
    _req: PhantomData<R>,
}

impl<U, R> List<U, R> {
    /// Keys never outrun the key space: what was handed out plus what is
    /// still queued fits a `usize`.
    #[verifier::type_invariant]
    spec fn keys_fit(self) -> bool {
        self.handed_out + self.services@.len() <= usize::MAX
    }

    /// The services not yet yielded, in order.
    pub closed spec fn remaining(self) -> Seq<U> {
        self.services@
    }

    /// The key the next yielded service will carry.
    pub closed spec fn next_key(self) -> usize {
        self.handed_out
    }

    /// A feed over the given services, keyed from zero in order.
    pub fn new(services: Vec<U>) -> (r: List<U, R>)
        ensures
            r.remaining() == services@,
            r.next_key() == 0,
    {
        proof {
            broadcast use vstd::std_specs::vec::axiom_spec_len;
            assert(vstd::std_specs::vec::spec_vec_len(&services) == services@.len());
        }
        List { services, handed_out: 0, _req: PhantomData }
    }
}

impl<U, R> Discover<R> for List<U, R> where U: Service<R> {
    type Key = usize;

    type Response = U::Response;

    type Error = U::Error;

    type Service = U;

    type DiscoverError = ();

    /// Yields the next service as an insertion under the next key; once
    /// the list is exhausted the feed reports not-ready forever.
    fn poll(&mut self) -> (r: Result<Async<Change<usize, U>>, ()>)
        ensures
            old(self).remaining().len() == 0 ==> (r matches Ok(Async::NotReady))
                && final(self).remaining() == old(self).remaining()
                && final(self).next_key() == old(self).next_key(),
            old(self).remaining().len() > 0 ==> r == Ok::<Async<Change<usize, U>>, ()>(
                Async::Ready(Change::Insert(old(self).next_key(), old(self).remaining()[0])),
            ) && final(self).remaining() == old(self).remaining().subrange(
                1,
                old(self).remaining().len() as int,
            ) && final(self).next_key() == old(self).next_key() + 1,
    {
        proof {
            use_type_invariant(&*self);
        }
        if self.services.len() == 0 {
            return Ok(Async::NotReady);
        }
        let mut queued: Vec<U> = Vec::new();
        core::mem::swap(&mut queued, &mut self.services);
        let service = queued.remove(0);
        self.services = queued;
        let key = self.handed_out;
        self.handed_out = self.handed_out + 1;
        Ok(Async::Ready(Change::Insert(key, service)))
    }
}

} // verus!
