//! A service factory implemented by a closure.

use core::marker::PhantomData;
use vstd::prelude::*;
use crate::service::Future;

verus! {

/// A service factory backed by a closure: every creation invokes the
/// closure for a fresh creation future.  It plays the factory's role
/// directly rather than through the `NewService` trait: `new_service` must
/// carry the closure's own calling precondition, which a trait method
/// cannot.
pub struct NewServiceFn<T, R> {
    pub f: T,
    pub _req: PhantomData<R>,
}

impl<T, N, R> NewServiceFn<T, R> where T: Fn() -> N, N: Future {
    /// A factory from the given closure.
    pub fn new(f: T) -> (r: NewServiceFn<T, R>)
        ensures
            r.f == f,
    {
        NewServiceFn { f, _req: PhantomData }
    }

    /// Invokes the closure for a fresh creation future.
    pub fn new_service(&self) -> (r: N)
        requires
            self.f.requires(()),
        ensures
            self.f.ensures((), r),
    {
        (self.f)()
    }
}

} // verus!
