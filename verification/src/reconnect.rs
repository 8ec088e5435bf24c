//! The lazy connection manager: defers establishing the underlying service
//! until first use and transparently reconnects after failure.
//!
//! Establishment may itself be asynchronous, so the manager drives the
//! lifecycle `Idle -> Connecting -> Connected` from within its readiness
//! poll: creation starts only from `Idle`, a creation failure surfaces to
//! the caller and reverts to `Idle`, and a readiness failure of the
//! established service is never re-exposed — it reverts to `Idle` and the
//! same poll immediately attempts a fresh creation.  The transitions are
//! pinned by [`spec_advance`]; the readiness loop merely feeds it what the
//! factory and the futures produced.

use vstd::prelude::*;
use crate::service::{Async, Future, NewService, Service};

verus! {

/// Errors produced by the connection manager.
#[derive(Debug)]
pub enum Error<T, U> {
    /// The established service failed.
    Inner(T),
    /// Establishing the connection failed.
    Connect(U),
    /// A request was submitted while no connection was established.
    NotReady,
}

impl<T, U> Error<T, U> {
    /// A short description of the error's kind.
    pub fn description(&self) -> (r: String)
        ensures
            self is Inner ==> r@ == "inner service error"@,
            self is Connect ==> r@ == "connection failed"@,
            self is NotReady ==> r@ == "not ready"@,
    {
        match self {
            Error::Inner(_) => "inner service error".to_string(),
            Error::Connect(_) => "connection failed".to_string(),
            Error::NotReady => "not ready".to_string(),
        }
    }
}

/// The connection lifecycle.  Exactly one variant is held at a time;
/// creation is initiated only from `Idle`, and there is never more than
/// one pending creation.
#[derive(Debug)]
pub enum State<F, S> {
    /// No connection and none being established.
    Idle,
    /// A creation future is pending.
    Connecting(F),
    /// A live service is established.
    Connected(S),
}

/// What one advance of the readiness loop observed, one case per state:
/// the factory's fresh creation future from `Idle`, the creation future's
/// poll from `Connecting`, or the established service's readiness from
/// `Connected`.
pub enum ReadyEvent<F, S, IE, CE> {
    Started(F),
    Creation(Result<Async<S>, CE>),
    Readiness(Result<Async<()>, IE>),
}

/// What one advance of the readiness loop decided.
pub enum ReadyStep<IE, CE> {
    /// A transition fired; advance again within the same readiness poll.
    Continue,
    /// Genuinely waiting on an asynchronous step; report not-ready.
    Suspend,
    /// The established connection is ready.
    Ready,
    /// A creation attempt failed; the error surfaces to this caller.
    Failed(Error<IE, CE>),
}

impl<F, S> State<F, S> {
    /// Which events can reach each state.
    pub open spec fn fits<IE, CE>(self, ev: ReadyEvent<F, S, IE, CE>) -> bool {
        match self {
            State::Idle => ev is Started,
            State::Connecting(_) => ev is Creation,
            State::Connected(_) => ev is Readiness,
        }
    }
}

/// The whole transition table of the readiness loop: what the lifecycle
/// becomes and what the loop does next, given the state and what was
/// observed.  A creation failure reverts to `Idle` and surfaces; a
/// readiness failure of the established service reverts to `Idle` and
/// continues — reconnection is attempted before control returns.
pub open spec fn spec_advance<F, S, IE, CE>(
    s: State<F, S>,
    ev: ReadyEvent<F, S, IE, CE>,
) -> (State<F, S>, ReadyStep<IE, CE>) {
    match ev {
        ReadyEvent::Started(f) => (State::Connecting(f), ReadyStep::Continue),
        ReadyEvent::Creation(r) => match r {
            Ok(Async::Ready(svc)) => (State::Connected(svc), ReadyStep::Continue),
            Ok(Async::NotReady) => (s, ReadyStep::Suspend),
            Err(e) => (State::Idle, ReadyStep::Failed(Error::Connect(e))),
        },
        ReadyEvent::Readiness(r) => match r {
            Ok(Async::Ready(_)) => (s, ReadyStep::Ready),
            Ok(Async::NotReady) => (s, ReadyStep::Suspend),
            Err(_) => (State::Idle, ReadyStep::Continue),
        },
    }
}

impl<F, S> State<F, S> {
    /// One advance of the readiness loop, exactly as [`spec_advance`]
    /// states it.
    pub fn advance_ready<IE, CE>(&mut self, ev: ReadyEvent<F, S, IE, CE>) -> (step: ReadyStep<
        IE,
        CE,
    >)
        requires
            old(self).fits(ev),
        ensures
            *final(self) == spec_advance(*old(self), ev).0,
            step == spec_advance(*old(self), ev).1,
    {
        match ev {
            ReadyEvent::Started(f) => {
                *self = State::Connecting(f);
                ReadyStep::Continue
            },
            ReadyEvent::Creation(r) => match r {
                Ok(Async::Ready(svc)) => {
                    *self = State::Connected(svc);
                    ReadyStep::Continue
                },
                Ok(Async::NotReady) => ReadyStep::Suspend,
                Err(e) => {
                    *self = State::Idle;
                    ReadyStep::Failed(Error::Connect(e))
                },
            },
            ReadyEvent::Readiness(r) => match r {
                Ok(Async::Ready(_)) => ReadyStep::Ready,
                Ok(Async::NotReady) => ReadyStep::Suspend,
                Err(_) => {
                    *self = State::Idle;
                    ReadyStep::Continue
                },
            },
        }
    }
}

/// Reconnect idempotence: a failed creation leaves the manager idle — not
/// stuck — and the next advance from idle necessarily begins a fresh
/// creation (only a `Started` event fits `Idle`).
pub proof fn lemma_fresh_creation_after_connect_failure<F, S, IE, CE>(
    s: State<F, S>,
    e: CE,
    f2: F,
)
    requires
        s is Connecting,
    ensures
        spec_advance::<F, S, IE, CE>(s, ReadyEvent::Creation(Err(e))).0 is Idle,
        spec_advance::<F, S, IE, CE>(s, ReadyEvent::Creation(Err(e))).1 == ReadyStep::<IE, CE>::Failed(
            Error::Connect(e),
        ),
        spec_advance::<F, S, IE, CE>(
            spec_advance::<F, S, IE, CE>(s, ReadyEvent::Creation(Err(e))).0,
            ReadyEvent::Started(f2),
        ).0 == State::<F, S>::Connecting(f2),
{
}

/// Reconnect on failure: when the established service fails its readiness
/// check, the stale failure is not surfaced — the manager reverts to idle,
/// keeps going within the same readiness poll, and its next advance starts
/// a fresh creation.
pub proof fn lemma_reconnect_after_readiness_failure<F, S, IE, CE>(s: State<F, S>, e: IE, f2: F)
    requires
        s is Connected,
    ensures
        spec_advance::<F, S, IE, CE>(s, ReadyEvent::Readiness(Err(e))).0 is Idle,
        spec_advance::<F, S, IE, CE>(s, ReadyEvent::Readiness(Err(e))).1 is Continue,
        spec_advance::<F, S, IE, CE>(
            spec_advance::<F, S, IE, CE>(s, ReadyEvent::Readiness(Err(e))).0,
            ReadyEvent::Started(f2),
        ).0 == State::<F, S>::Connecting(f2),
{
}

/// Defers establishing the underlying service until first use and
/// reconnects after failure.  One logical caller at a time drives the
/// lifecycle; the manager is not meant for concurrent mutation.
pub struct Reconnect<T, R> where T: NewService<R> {
    pub new_service: T,
    pub state: State<T::Future, T::Service>,
}

/// The response future of a submitted request; `inner` is empty exactly
/// when the request was submitted while not connected, and such a future
/// resolves straight to the not-ready error.
pub struct ResponseFuture<T, R> where T: NewService<R> {
    pub inner: Option<<T::Service as Service<R>>::Future>,
}

impl<T, R> Reconnect<T, R> where T: NewService<R> {
    /// A manager around the factory; no connection is attempted yet.
    pub fn new(new_service: T) -> (r: Reconnect<T, R>)
        ensures
            r.new_service == new_service,
            r.state is Idle,
    {
        Reconnect { new_service, state: State::Idle }
    }

    /// Drives the lifecycle until the connection is ready, a step must
    /// genuinely wait, or a creation attempt fails — each transition
    /// exactly as [`spec_advance`] states.  `effort` bounds how many
    /// immediate transitions this one poll chases; when it runs out the
    /// poll reports not-ready and the caller simply polls again.  Control
    /// never returns while idle: from `Idle` a fresh creation is started
    /// before this poll gives the processor up, whatever the allowance.
    pub fn poll_ready_limited(&mut self, effort: usize) -> (r: Result<
        Async<()>,
        Error<T::Error, T::InitError>,
    >)
        ensures
            r matches Ok(Async::Ready(_)) ==> final(self).state is Connected,
            r matches Ok(Async::NotReady) ==> final(self).state is Connecting
                || final(self).state is Connected,
            r is Err ==> (r matches Err(Error::Connect(_))) && final(self).state is Idle,
    {
        let mut remaining = effort;
        loop
            decreases remaining,
        {
            if remaining == 0 {
                let idle = match &self.state {
                    State::Idle => true,
                    _ => false,
                };
                if idle {
                    let created = self.new_service.new_service();
                    let _step = self.state.advance_ready::<T::Error, T::InitError>(
                        ReadyEvent::Started(created),
                    );
                }
                return Ok(Async::NotReady);
            }
            remaining = remaining - 1;
            let ev = match &mut self.state {
                State::Idle => ReadyEvent::Started(self.new_service.new_service()),
                State::Connecting(f) => ReadyEvent::Creation(f.poll()),
                State::Connected(svc) => ReadyEvent::Readiness(svc.poll_ready()),
            };
            let step = self.state.advance_ready(ev);
            match step {
                ReadyStep::Continue => {},
                ReadyStep::Suspend => {
                    return Ok(Async::NotReady);
                },
                ReadyStep::Ready => {
                    return Ok(Async::Ready(()));
                },
                ReadyStep::Failed(e) => {
                    return Err(e);
                },
            }
        }
    }

    /// Drives the lifecycle as far as it will go in one poll.
    pub fn poll_ready(&mut self) -> (r: Result<Async<()>, Error<T::Error, T::InitError>>)
        ensures
            r matches Ok(Async::Ready(_)) ==> final(self).state is Connected,
            r matches Ok(Async::NotReady) ==> final(self).state is Connecting
                || final(self).state is Connected,
            r is Err ==> (r matches Err(Error::Connect(_))) && final(self).state is Idle,
    {
        self.poll_ready_limited(usize::MAX)
    }

    /// Submits a request on the established connection.  While not
    /// connected — a caller racing the readiness contract — the returned
    /// future resolves straight to the not-ready error rather than
    /// panicking.
    pub fn call(&mut self, request: R) -> (r: ResponseFuture<T, R>)
        ensures
            r.inner is Some <==> old(self).state is Connected,
            old(self).state is Connected ==> final(self).state is Connected,
            !(old(self).state is Connected) ==> *final(self) == *old(self),
    {
        match &mut self.state {
            State::Connected(service) => {
                let response = service.call(request);
                ResponseFuture { inner: Some(response) }
            },
            _ => ResponseFuture { inner: None },
        }
    }
}

/// Maps the established service's response outcome to the manager's own:
/// successes and pending polls pass through unchanged, and the service's
/// failures are wrapped as the inner error — never as a connection or
/// not-ready error.
pub fn wrap_response<T, IE, CE>(outcome: Result<Async<T>, IE>) -> (r: Result<
    Async<T>,
    Error<IE, CE>,
>)
    ensures
        match outcome {
            Ok(a) => r == Ok::<Async<T>, Error<IE, CE>>(a),
            Err(e) => r == Err::<Async<T>, Error<IE, CE>>(Error::Inner(e)),
        },
{
    match outcome {
        Ok(a) => Ok(a),
        Err(e) => Err(Error::Inner(e)),
    }
}

impl<T, R> ResponseFuture<T, R> where T: NewService<R> {
    /// Resolves with the established service's own outcome — wrapped by
    /// [`wrap_response`], so successes pass through and failures surface
    /// as the inner error — or with the not-ready error exactly when the
    /// request was submitted while not connected.
    pub fn poll(&mut self) -> (r: Result<Async<T::Response>, Error<T::Error, T::InitError>>)
        ensures
            (r matches Err(Error::NotReady)) <==> old(self).inner is None,
            r matches Err(Error::Connect(_)) ==> false,
    {
        match &mut self.inner {
            Some(f) => wrap_response(f.poll()),
            None => Err(Error::NotReady),
        }
    }
}

} // verus!
