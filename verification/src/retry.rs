//! The retry engine: wraps an inner service and replays a cloned request
//! according to a pluggable policy when an attempt's outcome warrants it.
//!
//! Per external call the engine runs `Called -> Checking -> Retrying ->
//! Called -> ...` until the policy declines, the policy's own decision
//! future fails (the pending result is then returned unmodified, never the
//! policy failure), or the request cannot be cloned again.  Exactly one
//! inner call is in flight at a time; retries are strictly sequential and
//! unbounded by the engine itself — any bound is the policy's business,
//! expressed by eventually declining.  The caller always receives the last
//! completed inner result, never a synthetic engine error: the engine has
//! no error type of its own.

use vstd::prelude::*;
use crate::service::{Async, Future, Service};

verus! {

/// Decides whether a finished attempt is replayed, and how requests are
/// duplicated for replay.  A decision to retry yields a *new* policy value
/// that replaces the engine's held one, so a policy's internal state (a
/// token budget, an attempt count) evolves per attempt without interior
/// mutability.
pub trait Policy<Req, Res, E>: Sized {
    type Future: Future<Item = Self, Error = ()>;

    /// Inspects the original request and the just-finished result.  `Some`
    /// carries the asynchronous decision whose success yields the
    /// replacement policy for the next attempt; `None` declines the retry
    /// outright.
    fn retry(&self, req: &Req, result: Result<&Res, &E>) -> Option<Self::Future>;

    /// Attempts to produce a cheap duplicate of the request; `None` makes
    /// the request inherently non-retryable.
    fn clone_request(&self, req: &Req) -> Option<Req>;
}

/// Replays requests according to a policy.
#[derive(Clone, Debug)]
pub struct Retry<P, S> {
    pub policy: P,
    pub service: S,
}

/// The attempt machine of one external call.
#[derive(Debug)]
pub enum State<F, PF, T, E> {
    /// The future of the current inner call is pending.
    Called(F),
    /// The policy's retry decision is pending; the finished result is kept
    /// to fall back on if the decision itself fails.
    Checking(PF, Option<Result<T, E>>),
    /// The policy accepted; waiting for the inner service to be ready
    /// before the next attempt.
    Retrying,
}

/// The response future of one external call: the retained request clone
/// (if the request could be duplicated), the call's own engine handle, and
/// the attempt machine.
pub struct ResponseFuture<P, S, R> where P: Policy<R, S::Response, S::Error>, S: Service<R> {
    pub request: Option<R>,
    pub retry: Retry<P, S>,
    pub state: State<S::Future, P::Future, S::Response, S::Error>,
}

/// What one advance of the attempt machine decided.
pub enum RetryStep<T, E> {
    /// A transition fired; advance again.
    Continue,
    /// Genuinely waiting on an asynchronous step.
    Suspend,
    /// The external call resolves with this attempt result.
    Resolve(Result<T, E>),
    /// The service is ready again: take the retained request and dispatch
    /// the next attempt.
    Dispatch,
}

impl<P, S> Retry<P, S> {
    /// An engine that consults `policy` around `service`.
    pub fn new(policy: P, service: S) -> (r: Retry<P, S>)
        ensures
            r.policy == policy,
            r.service == service,
    {
        Retry { policy, service }
    }
}

impl<P, S> Retry<P, S> {
    /// The engine as a whole is ready exactly when the inner service is:
    /// readiness, pending and errors are the inner service's own, and the
    /// stored policy is untouched.
    pub fn poll_ready<R>(&mut self) -> (r: Result<Async<()>, S::Error>) where
        P: Policy<R, S::Response, S::Error>,
        S: Service<R>,
        ensures
            final(self).policy == old(self).policy,
    {
        self.service.poll_ready()
    }

    /// Starts one external call: the request is duplicated first (when the
    /// policy can), so the original can be replayed; the inner service is
    /// invoked with the original, and the duplicate is retained for the
    /// checking and retrying phases.
    pub fn call<R>(&mut self, request: R) -> (r: ResponseFuture<P, S, R>) where
        P: Policy<R, S::Response, S::Error> + Clone,
        S: Service<R> + Clone,
        ensures
            r.state is Called,
            r.wf(),
            final(self).policy == old(self).policy,
            (Model { request: r.request, phase: r.phase_view(), calls: 1 }) == (fresh_call::<
                R,
                S::Response,
                S::Error,
            >(r.request)),
    {
        let cloned = self.policy.clone_request(&request);
        let response = self.service.call(request);
        ResponseFuture { request: cloned, retry: self.clone(), state: State::Called(response) }
    }
}

impl<P, S, R> ResponseFuture<P, S, R> where P: Policy<R, S::Response, S::Error>, S: Service<R> {
    /// The machine keeps a fallback result throughout checking, and never
    /// reaches the retrying phase without a retained request.
    pub open spec fn wf(self) -> bool {
        &&& (self.state matches State::Checking(_, saved) ==> saved is Some
            && self.request is Some)
        &&& (self.state is Retrying ==> self.request is Some)
    }

    /// The law model's view of this call's attempt machine.
    pub open spec fn phase_view(self) -> ModelPhase<S::Response, S::Error> {
        match self.state {
            State::Called(_) => ModelPhase::Called,
            State::Checking(_, saved) => ModelPhase::Checking(saved),
            State::Retrying => ModelPhase::Retrying,
        }
    }

    /// Whether one advance acted on this call's view as the given model
    /// event: up to a resolution the views march in step, and at a
    /// resolution the advance yields exactly the model's resolution.
    pub open spec fn advances_as(
        pre: ResponseFuture<P, S, R>,
        post: ResponseFuture<P, S, R>,
        step: RetryStep<S::Response, S::Error>,
        ev: ModelEvent<R, S::Response, S::Error>,
    ) -> bool {
        let viewed = Model { request: pre.request, phase: pre.phase_view(), calls: 0 };
        let stepped = model_step(viewed, ev);
        &&& (stepped.1 is None ==> post.request == stepped.0.request && post.phase_view()
            == stepped.0.phase)
        &&& (step matches RetryStep::Resolve(r) ==> stepped.1 == Some(r))
        &&& (!(step is Resolve) ==> stepped.1 is None)
    }

    /// Advances a call whose inner attempt finished with `result`;
    /// `decision` is what the policy's `retry` said when a duplicate of
    /// the request was retained (without one the policy is never consulted
    /// and the call resolves with `result` as it stands).
    pub fn on_completed(
        &mut self,
        result: Result<S::Response, S::Error>,
        decision: Option<P::Future>,
    ) -> (step: RetryStep<S::Response, S::Error>)
        requires
            old(self).state is Called,
        ensures
            old(self).request is None || decision is None ==> step
                == RetryStep::<S::Response, S::Error>::Resolve(result)
                && *final(self) == *old(self),
            old(self).request is Some && decision is Some ==> step is Continue
                && final(self).state == State::<S::Future, P::Future, S::Response, S::Error>::Checking(
                decision->Some_0,
                Some(result),
            ) && final(self).request == old(self).request && final(self).retry == old(self).retry,
            old(self).wf() ==> final(self).wf(),
            Self::advances_as(
                *old(self),
                *final(self),
                step,
                ModelEvent::Completed(result, decision is Some),
            ),
    {
        if self.request.is_some() {
            match decision {
                Some(checking) => {
                    self.state = State::Checking(checking, Some(result));
                    RetryStep::Continue
                },
                None => RetryStep::Resolve(result),
            }
        } else {
            RetryStep::Resolve(result)
        }
    }

    /// Advances a call whose policy decision future produced `outcome`: a
    /// replacement policy moves on to retrying, and a failed decision
    /// resolves with the kept fallback result — never with the policy's
    /// own failure.
    pub fn on_decision(&mut self, outcome: Result<Async<P>, ()>) -> (step: RetryStep<
        S::Response,
        S::Error,
    >)
        requires
            old(self).state is Checking,
            old(self).wf(),
        ensures
            match outcome {
                Ok(Async::Ready(p)) => step is Continue && final(self).retry.policy == p
                    && final(self).state is Retrying
                    && final(self).request == old(self).request
                    && final(self).retry.service == old(self).retry.service
                    && final(self).wf(),
                Ok(Async::NotReady) => step is Suspend && *final(self) == *old(self),
                Err(_) => step == RetryStep::<S::Response, S::Error>::Resolve(
                    old(self).state->Checking_1->Some_0,
                ) && final(self).request == old(self).request
                    && final(self).retry == old(self).retry,
            },
            Self::advances_as(*old(self), *final(self), step, decision_event(outcome)),
    {
        match outcome {
            Ok(Async::Ready(policy)) => {
                self.retry.policy = policy;
                self.state = State::Retrying;
                RetryStep::Continue
            },
            Ok(Async::NotReady) => RetryStep::Suspend,
            Err(_) => {
                let mut taken = State::Retrying;
                core::mem::swap(&mut taken, &mut self.state);
                match taken {
                    State::Checking(checking, saved) => {
                        self.state = State::Checking(checking, None);
                        match saved {
                            Some(result) => RetryStep::Resolve(result),
                            None => unreached(),
                        }
                    },
                    _ => unreached(),
                }
            },
        }
    }

    /// Advances a retrying call once the inner service's readiness
    /// produced `outcome`: readiness begins the dispatch of the next
    /// attempt, and a readiness failure resolves with that inner error.
    pub fn on_ready(&mut self, outcome: Result<Async<()>, S::Error>) -> (step: RetryStep<
        S::Response,
        S::Error,
    >)
        requires
            old(self).state is Retrying,
            old(self).wf(),
        ensures
            *final(self) == *old(self),
            match outcome {
                Ok(Async::Ready(_)) => step is Dispatch,
                Ok(Async::NotReady) => step is Suspend,
                Err(e) => step == RetryStep::<S::Response, S::Error>::Resolve(Err(e)),
            },
            outcome matches Ok(Async::NotReady) ==> Self::advances_as(
                *old(self),
                *final(self),
                step,
                ModelEvent::ReadyPending,
            ),
            outcome matches Err(e) ==> Self::advances_as(
                *old(self),
                *final(self),
                step,
                ModelEvent::ReadyFailed(e),
            ),
    {
        match outcome {
            Ok(Async::Ready(_)) => RetryStep::Dispatch,
            Ok(Async::NotReady) => RetryStep::Suspend,
            Err(e) => RetryStep::Resolve(Err(e)),
        }
    }

    /// Takes the retained request out for the next attempt and installs
    /// the duplicate that will cover the attempt after it.
    pub fn take_request(&mut self, next: Option<R>) -> (req: R)
        requires
            old(self).state is Retrying,
            old(self).request is Some,
        ensures
            req == old(self).request->Some_0,
            final(self).request == next,
            final(self).state == old(self).state,
            final(self).retry == old(self).retry,
    {
        let mut taken = next;
        core::mem::swap(&mut taken, &mut self.request);
        match taken {
            Some(req) => req,
            None => unreached(),
        }
    }

    /// Installs the freshly dispatched attempt's future.
    pub fn install(&mut self, response: S::Future)
        requires
            old(self).state is Retrying,
        ensures
            final(self).state == State::<S::Future, P::Future, S::Response, S::Error>::Called(
                response,
            ),
            final(self).request == old(self).request,
            final(self).retry == old(self).retry,
    {
        self.state = State::Called(response);
    }

    /// Drives the external call one poll: each finished attempt is either
    /// resolved or handed to the policy, a granted retry waits for
    /// readiness and dispatches the retained duplicate, and the caller
    /// always receives an attempt's own result.  `effort` bounds how many
    /// immediate transitions this one poll chases; when it runs out the
    /// poll reports not-ready and the caller simply polls again.
    pub fn poll_limited(&mut self, effort: usize) -> (r: Result<Async<S::Response>, S::Error>)
        requires
            old(self).wf(),
        ensures
            r matches Ok(Async::NotReady) ==> final(self).wf(),
            old(self).request is None && old(self).state is Called ==> final(self).request is None
                && final(self).state is Called,
    {
        let mut remaining = effort;
        loop
            invariant
                self.wf(),
                old(self).request is None && old(self).state is Called ==> self.request is None
                    && self.state is Called,
            decreases remaining,
        {
            if remaining == 0 {
                return Ok(Async::NotReady);
            }
            remaining = remaining - 1;
            let in_called = match &self.state {
                State::Called(_) => true,
                _ => false,
            };
            if in_called {
                let polled = match &mut self.state {
                    State::Called(f) => f.poll(),
                    _ => unreached(),
                };
                let result = match polled {
                    Ok(Async::NotReady) => {
                        return Ok(Async::NotReady);
                    },
                    Ok(Async::Ready(response)) => Ok(response),
                    Err(e) => Err(e),
                };
                let decision = match &self.request {
                    Some(req) => self.retry.policy.retry(req, result.as_ref()),
                    None => None,
                };
                let step = self.on_completed(result, decision);
                match step {
                    RetryStep::Continue => {},
                    RetryStep::Resolve(res) => {
                        return match res {
                            Ok(v) => Ok(Async::Ready(v)),
                            Err(e) => Err(e),
                        };
                    },
                    RetryStep::Suspend => {
                        return unreached();
                    },
                    RetryStep::Dispatch => {
                        return unreached();
                    },
                }
            } else {
                let in_checking = match &self.state {
                    State::Checking(_, _) => true,
                    _ => false,
                };
                if in_checking {
                    let outcome = match &mut self.state {
                        State::Checking(pf, _) => pf.poll(),
                        _ => unreached(),
                    };
                    let step = self.on_decision(outcome);
                    match step {
                        RetryStep::Continue => {},
                        RetryStep::Suspend => {
                            return Ok(Async::NotReady);
                        },
                        RetryStep::Resolve(res) => {
                            return match res {
                                Ok(v) => Ok(Async::Ready(v)),
                                Err(e) => Err(e),
                            };
                        },
                        RetryStep::Dispatch => {
                            return unreached();
                        },
                    }
                } else {
                    let outcome = self.retry.service.poll_ready();
                    let step = self.on_ready(outcome);
                    match step {
                        RetryStep::Continue => {
                            return unreached();
                        },
                        RetryStep::Suspend => {
                            return Ok(Async::NotReady);
                        },
                        RetryStep::Resolve(res) => {
                            return match res {
                                Ok(v) => Ok(Async::Ready(v)),
                                Err(e) => Err(e),
                            };
                        },
                        RetryStep::Dispatch => {
                            let next = match &self.request {
                                Some(req) => self.retry.policy.clone_request(req),
                                None => unreached(),
                            };
                            let req = self.take_request(next);
                            let response = self.retry.service.call(req);
                            self.install(response);
                        },
                    }
                }
            }
        }
    }

    /// Drives the external call as far as it will go in one poll.
    pub fn poll(&mut self) -> (r: Result<Async<S::Response>, S::Error>)
        requires
            old(self).wf(),
        ensures
            r matches Ok(Async::NotReady) ==> final(self).wf(),
            old(self).request is None && old(self).state is Called ==> final(self).request is None
                && final(self).state is Called,
    {
        self.poll_limited(usize::MAX)
    }
}

/// The payload-light mirror of one external call, for laws over whole
/// event sequences: the retained duplicate, the attempt phase with its
/// fallback result, and how many inner calls have been made so far.
pub struct Model<R, T, E> {
    pub request: Option<R>,
    pub phase: ModelPhase<T, E>,
    pub calls: nat,
}

/// The attempt phase, payloads reduced to the kept fallback result.
pub enum ModelPhase<T, E> {
    Called,
    Checking(Option<Result<T, E>>),
    Retrying,
}

/// A freshly started external call: the duplicate the policy produced (if
/// any) is retained, the first attempt is in flight, and one inner call
/// has been made.
pub open spec fn fresh_call<R, T, E>(cloned: Option<R>) -> Model<R, T, E> {
    Model { request: cloned, phase: ModelPhase::Called, calls: 1 }
}

/// What one advance of a call observed, one case per case of the advance
/// operations above.
pub enum ModelEvent<R, T, E> {
    /// The attempt finished with the result; the flag says whether the
    /// policy offered a retry decision (it is consulted only while a
    /// duplicate is retained).
    Completed(Result<T, E>, bool),
    /// The decision future yielded the replacement policy.
    DecisionReady,
    /// The decision future is still pending.
    DecisionPending,
    /// The decision future itself failed.
    DecisionFailed,
    /// The service was ready: the next attempt is dispatched with the
    /// retained duplicate, and this fresh duplicate kept for the attempt
    /// after it.
    ReadyAgain(Option<R>),
    /// The readiness check is still pending.
    ReadyPending,
    /// The readiness check before the retry failed with this inner error.
    ReadyFailed(E),
}

/// The model event of a decision future's poll outcome.
pub open spec fn decision_event<R, T, E, P>(outcome: Result<Async<P>, ()>) -> ModelEvent<R, T, E> {
    match outcome {
        Ok(Async::Ready(_)) => ModelEvent::DecisionReady,
        Ok(Async::NotReady) => ModelEvent::DecisionPending,
        Err(_) => ModelEvent::DecisionFailed,
    }
}

/// Which events can reach a call in each phase.
pub open spec fn model_fits<R, T, E>(m: Model<R, T, E>, ev: ModelEvent<R, T, E>) -> bool {
    match m.phase {
        ModelPhase::Called => ev is Completed,
        ModelPhase::Checking(_) => ev is DecisionReady || ev is DecisionPending
            || ev is DecisionFailed,
        ModelPhase::Retrying => ev is ReadyAgain || ev is ReadyPending || ev is ReadyFailed,
    }
}

/// One advance of a call: the new model, and the resolution if the call
/// resolved.  Each case mirrors one case of `on_completed`, `on_decision`
/// and `on_ready` (with `take_request` and `install`).
pub open spec fn model_step<R, T, E>(m: Model<R, T, E>, ev: ModelEvent<R, T, E>) -> (
    Model<R, T, E>,
    Option<Result<T, E>>,
) {
    match ev {
        ModelEvent::Completed(result, offered) => if m.request is Some && offered {
            (
                Model {
                    request: m.request,
                    phase: ModelPhase::Checking(Some(result)),
                    calls: m.calls,
                },
                None,
            )
        } else {
            (m, Some(result))
        },
        ModelEvent::DecisionReady => (
            Model { request: m.request, phase: ModelPhase::Retrying, calls: m.calls },
            None,
        ),
        ModelEvent::DecisionPending => (m, None),
        ModelEvent::DecisionFailed => (m, m.phase->Checking_0),
        ModelEvent::ReadyAgain(next) => (
            Model { request: next, phase: ModelPhase::Called, calls: m.calls + 1 },
            None,
        ),
        ModelEvent::ReadyPending => (m, None),
        ModelEvent::ReadyFailed(e) => (m, Some(Err(e))),
    }
}

/// Runs a call through a sequence of events, stopping at the first
/// resolution; an event that cannot reach the current phase changes
/// nothing.
pub open spec fn model_run<R, T, E>(m: Model<R, T, E>, evs: Seq<ModelEvent<R, T, E>>) -> (
    Model<R, T, E>,
    Option<Result<T, E>>,
)
    decreases evs.len(),
{
    if evs.len() == 0 {
        (m, None)
    } else if model_fits(m, evs[0]) {
        let stepped = model_step(m, evs[0]);
        if stepped.1 is Some {
            stepped
        } else {
            model_run(stepped.0, evs.subrange(1, evs.len() as int))
        }
    } else {
        model_run(m, evs.subrange(1, evs.len() as int))
    }
}

/// The dispatch that follows a ready signal — taking the retained request
/// out and installing the next attempt — acts on a call's view exactly as
/// one `ReadyAgain` event, which is also where the model counts the new
/// inner call.
pub proof fn lemma_dispatch_view<R, T, E>(m: Model<R, T, E>, next: Option<R>)
    requires
        m.phase is Retrying,
        m.request is Some,
    ensures
        model_step(m, ModelEvent::ReadyAgain(next)) == (
            Model { request: next, phase: ModelPhase::<T, E>::Called, calls: m.calls + 1 },
            None::<Result<T, E>>,
        ),
{
}

/// Non-retryable requests: with no duplicate retained, the engine never
/// makes a second inner call, whatever the policy would have wanted — the
/// call stays in its first attempt until that attempt's own result
/// resolves it.
pub proof fn lemma_non_retryable<R, T, E>(m: Model<R, T, E>, evs: Seq<ModelEvent<R, T, E>>)
    requires
        m.request is None,
        m.phase is Called,
    ensures
        model_run(m, evs).0.calls == m.calls,
        model_run(m, evs).0.request is None,
        model_run(m, evs).0.phase is Called,
    decreases evs.len(),
{
    if evs.len() > 0 {
        if model_fits(m, evs[0]) {
            let stepped = model_step(m, evs[0]);
            if !(stepped.1 is Some) {
                lemma_non_retryable(stepped.0, evs.subrange(1, evs.len() as int));
            }
        } else {
            lemma_non_retryable(m, evs.subrange(1, evs.len() as int));
        }
    }
}

/// Policy-failure fallback: when the policy's decision future fails, the
/// call resolves with the result that was pending before the decision was
/// sought — success or error, unmodified — never with the policy's own
/// failure; the engine has no error type of its own to surface.
pub proof fn lemma_policy_failure_fallback<R, T, E>(m: Model<R, T, E>, res: Result<T, E>)
    requires
        m.phase == ModelPhase::<T, E>::Checking(Some(res)),
    ensures
        model_step(m, ModelEvent::<R, T, E>::DecisionFailed).1 == Some(res),
        model_step(m, ModelEvent::<R, T, E>::DecisionFailed).0.calls == m.calls,
{
}

/// The events of an external call whose attempts finish with `results`,
/// against a policy that grants a retry after every result but the last,
/// declines after the last, and duplicates the request without fail.
pub open spec fn granted_cycle_events<R, T, E>(results: Seq<Result<T, E>>, req: R) -> Seq<
    ModelEvent<R, T, E>,
>
    decreases results.len(),
{
    if results.len() <= 1 {
        seq![ModelEvent::Completed(results[0], false)]
    } else {
        seq![
            ModelEvent::<R, T, E>::Completed(results[0], true),
            ModelEvent::<R, T, E>::DecisionReady,
            ModelEvent::<R, T, E>::ReadyAgain(Some(req)),
        ] + granted_cycle_events(results.subrange(1, results.len() as int), req)
    }
}

/// Retry termination: when the attempts finish with `results` and the
/// policy grants exactly `results.len() - 1` retries before declining, the
/// call resolves with the last result, and exactly `results.len()` inner
/// calls have been made in all — the original plus one per granted retry.
pub proof fn lemma_retry_termination<R, T, E>(m: Model<R, T, E>, results: Seq<Result<T, E>>, req: R)
    requires
        results.len() >= 1,
        m.phase is Called,
        m.request is Some,
    ensures
        model_run(m, granted_cycle_events(results, req)).1 == Some(results.last()),
        model_run(m, granted_cycle_events(results, req)).0.calls == m.calls + results.len() - 1,
    decreases results.len(),
{
    let evs = granted_cycle_events(results, req);
    let n = evs.len() as int;
    if results.len() <= 1 {
        assert(evs[0] == ModelEvent::<R, T, E>::Completed(results[0], false));
        assert(results.last() == results[0]);
    } else {
        let tail = granted_cycle_events(results.subrange(1, results.len() as int), req);
        let head = seq![
            ModelEvent::<R, T, E>::Completed(results[0], true),
            ModelEvent::<R, T, E>::DecisionReady,
            ModelEvent::<R, T, E>::ReadyAgain(Some(req)),
        ];
        assert(evs == head + tail);
        assert(n == 3 + tail.len());
        assert(evs[0] == ModelEvent::<R, T, E>::Completed(results[0], true));
        let m1 = model_step(m, evs[0]).0;
        let evs1 = evs.subrange(1, n);
        assert(model_fits(m, evs[0]));
        assert(model_step(m, evs[0]).1 is None);
        assert(model_run(m, evs) == model_run(m1, evs1));
        assert(evs1[0] == evs[1]);
        assert(evs1[0] == ModelEvent::<R, T, E>::DecisionReady);
        let m2 = model_step(m1, evs1[0]).0;
        let evs2 = evs1.subrange(1, n - 1);
        assert(model_fits(m1, evs1[0]));
        assert(model_step(m1, evs1[0]).1 is None);
        assert(model_run(m1, evs1) == model_run(m2, evs2));
        assert(evs2 =~= evs.subrange(2, n));
        assert(evs2[0] == evs[2]);
        assert(evs2[0] == ModelEvent::<R, T, E>::ReadyAgain(Some(req)));
        let m3 = model_step(m2, evs2[0]).0;
        let evs3 = evs2.subrange(1, evs2.len() as int);
        assert(model_fits(m2, evs2[0]));
        assert(model_step(m2, evs2[0]).1 is None);
        assert(model_run(m2, evs2) == model_run(m3, evs3));
        assert(evs3 =~= evs.subrange(3, n));
        assert(evs3 =~= tail);
        assert(model_run(m, evs) == model_run(m3, evs3));
        lemma_retry_termination(m3, results.subrange(1, results.len() as int), req);
        assert(results.subrange(1, results.len() as int).last() == results.last());
    }
}

} // verus!
