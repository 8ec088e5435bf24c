//! The admission gate: wraps an inner service behind a fixed number of
//! admission slots and a per-request predicate.
//!
//! A request is admitted only while a slot is free; admission takes the
//! slot, and the slot is given back exactly once, as soon as the admitted
//! path is abandoned or finishes: when the predicate rejects, when the
//! inner readiness check fails, or when the inner call is dispatched.
//!
//! The slot counter and the waiter registration are the only state shared
//! between a gate and its in-flight calls, so [`Counts`] is handed
//! explicitly to every advance step; its four operations are the only ones
//! that touch it, and each is pinned to a specification function so that
//! the conservation laws below speak about any interleaving of them.

use core::marker::PhantomData;
use vstd::prelude::*;
use crate::service::{Async, Future, Service};

verus! {

/// Errors produced by the admission gate.
#[derive(Debug)]
pub enum Error<T, U> {
    /// The predicate rejected the request.
    Rejected(T),
    /// The inner service produced an error.
    Inner(U),
    /// No admission slot was free when the request arrived.
    NoCapacity,
}

/// Checks a request before it is admitted to the inner service.
pub trait Predicate<T> {
    type Error;
    type Future: Future<Item = (), Error = Self::Error>;

    fn check(&mut self, request: &T) -> Self::Future;
}

/// The admission slots shared by a gate and every call in flight through
/// it, together with the single-slot registration of the task waiting for
/// a free slot.  Only one waiter slot exists: a later registration
/// replaces an earlier one, so under contention some waiters can starve;
/// that is a documented limitation of the single-waiter design.
#[derive(Debug)]
pub struct Counts {
    /// Remaining admission slots.
    pub rem: usize,
    /// The configured number of slots; a well-formed counter never holds
    /// more than this.
    pub buffer: usize,
    /// Whether a task is registered to be woken when a slot frees up.
    pub waiter: bool,
    /// Whether the registered waiter has been woken since registering.
    pub woken: bool,
}

impl Counts {
    /// A counter is well formed while it never reports more free slots
    /// than were configured.
    pub open spec fn wf(self) -> bool {
        self.rem <= self.buffer
    }

    /// How many admitted requests have not yet given their slot back.
    pub open spec fn admitted(self) -> int {
        self.buffer - self.rem
    }

    pub open spec fn spec_new(buffer: usize) -> Counts {
        Counts { rem: buffer, buffer, waiter: false, woken: false }
    }

    pub open spec fn spec_register(self) -> Counts {
        Counts { rem: self.rem, buffer: self.buffer, waiter: true, woken: false }
    }

    pub open spec fn spec_admit(self) -> Counts {
        if self.rem > 0 {
            Counts { rem: (self.rem - 1) as usize, buffer: self.buffer, waiter: self.waiter, woken: self.woken }
        } else {
            self
        }
    }

    pub open spec fn spec_release(self) -> Counts {
        if self.rem == 0 && self.waiter {
            Counts { rem: (self.rem + 1) as usize, buffer: self.buffer, waiter: false, woken: true }
        } else {
            Counts { rem: (self.rem + 1) as usize, buffer: self.buffer, waiter: self.waiter, woken: self.woken }
        }
    }

    /// All slots start free, and no waiter is registered.
    pub fn new(buffer: usize) -> (c: Counts)
        ensures
            c == Counts::spec_new(buffer),
            c.wf(),
    {
        Counts { rem: buffer, buffer, waiter: false, woken: false }
    }

    /// Registers the polling task as the current waiter.  The registration
    /// starts un-woken; it is the one that the next wake-up goes to.
    pub fn register(&mut self)
        ensures
            *final(self) == old(self).spec_register(),
    {
        self.waiter = true;
        self.woken = false;
    }

    /// Takes one admission slot if any is free; with none free it changes
    /// nothing and reports the exhaustion.
    pub fn try_admit(&mut self) -> (admitted: bool)
        ensures
            *final(self) == old(self).spec_admit(),
            admitted == (old(self).rem > 0),
    {
        if self.rem > 0 {
            self.rem = self.rem - 1;
            true
        } else {
            false
        }
    }

    /// Gives one admission slot back; when the count leaves zero, the
    /// registered waiter (if any) is woken and its registration consumed.
    pub fn release(&mut self)
        requires
            old(self).rem < old(self).buffer,
        ensures
            *final(self) == old(self).spec_release(),
    {
        if self.rem == 0 && self.waiter {
            self.waiter = false;
            self.woken = true;
        }
        self.rem = self.rem + 1;
    }
}

/// One operation a driver can perform against the shared counter.
pub enum CountsOp {
    Register,
    Admit,
    Release,
}

/// The effect of one operation; a release is only meaningful for a held
/// slot, so with every slot free it changes nothing.
pub open spec fn counts_step(c: Counts, op: CountsOp) -> Counts {
    match op {
        CountsOp::Register => c.spec_register(),
        CountsOp::Admit => c.spec_admit(),
        CountsOp::Release => if c.rem < c.buffer { c.spec_release() } else { c },
    }
}

pub open spec fn counts_run(c: Counts, ops: Seq<CountsOp>) -> Counts
    decreases ops.len(),
{
    if ops.len() == 0 {
        c
    } else {
        counts_run(counts_step(c, ops[0]), ops.subrange(1, ops.len() as int))
    }
}

/// Capacity invariant: across every sequence of interleaved admissions,
/// releases and waiter registrations, the number of admitted requests
/// whose slot is still out stays between zero and the configured buffer,
/// and the counter itself never exceeds the buffer (nor drops below zero,
/// by its type).
pub proof fn lemma_capacity_invariant(c: Counts, ops: Seq<CountsOp>)
    requires
        c.wf(),
    ensures
        counts_run(c, ops).wf(),
        counts_run(c, ops).buffer == c.buffer,
        0 <= counts_run(c, ops).admitted() <= c.buffer,
    decreases ops.len(),
{
    if ops.len() > 0 {
        lemma_capacity_invariant(counts_step(c, ops[0]), ops.subrange(1, ops.len() as int));
    }
}

/// Wake correctness: with the counter at zero and a waiter registered,
/// giving a slot back wakes that waiter, and a readiness poll made after
/// the release observes the free slot and reports ready.
pub proof fn lemma_wake_on_release(c: Counts)
    requires
        c.wf(),
        c.rem == 0,
        c.waiter,
    ensures
        c.spec_release().woken,
        c.spec_release().rem > 0,
        spec_poll_ready(c.spec_release()).1,
{
}

/// What `Filter::poll_ready` does to the counter and reports: it registers
/// the caller as the waiter, then reports ready exactly when a slot is
/// free.
pub open spec fn spec_poll_ready(c: Counts) -> (Counts, bool) {
    (c.spec_register(), c.rem != 0)
}

/// The phase of one admitted call.  `Check` and `WaitReady`
/// hold the admission slot; the other two phases do not.
#[derive(Debug)]
pub enum State<R, F> {
    /// The predicate is checking the request, which is retained.
    Check(R),
    /// The predicate approved; waiting for the inner service to be ready.
    WaitReady(R),
    /// The inner call is in flight.
    WaitResponse(F),
    /// No slot was taken, or the slot has already been given back.
    NoCapacity,
}

impl<R, F> State<R, F> {
    pub open spec fn holds_slot(self) -> bool {
        self is Check || self is WaitReady
    }
}

/// What an admitted call decided after one advance step.
pub enum Step<R, T, CE, IE> {
    /// Nothing changed; poll again after a wake-up.
    Suspend,
    /// A transition fired; advance the machine again.
    Continue,
    /// The request was approved and the service is ready: the slot has
    /// been given back, and the caller now dispatches the request.
    Dispatch(R),
    /// The call is over.
    Resolve(Result<T, Error<CE, IE>>),
}

impl<R, F> State<R, F> {
    /// Advances a checking call once its predicate future produced
    /// `outcome`: approval moves on to waiting for the inner service, a
    /// rejection gives the slot back and resolves with the predicate's
    /// error, and a pending check leaves everything as it was.
    pub fn on_check<T, CE, IE>(
        &mut self,
        counts: &mut Counts,
        outcome: Result<Async<()>, CE>,
    ) -> (step: Step<R, T, CE, IE>)
        requires
            *old(self) is Check,
            old(counts).rem < old(counts).buffer,
        ensures
            (final(self).phase(), *final(counts)) == gate_next(
                old(self).phase(),
                *old(counts),
                check_event(outcome),
            ),
            match outcome {
                Ok(Async::Ready(_)) => *final(self) == State::<R, F>::WaitReady(old(self)->Check_0)
                    && *final(counts) == *old(counts)
                    && step is Continue,
                Ok(Async::NotReady) => *final(self) == *old(self)
                    && *final(counts) == *old(counts)
                    && step is Suspend,
                Err(e) => *final(self) is NoCapacity
                    && *final(counts) == old(counts).spec_release()
                    && step == Step::<R, T, CE, IE>::Resolve(Err(Error::Rejected(e))),
            },
    {
        match outcome {
            Ok(Async::Ready(_)) => {
                let mut taken = State::NoCapacity;
                core::mem::swap(self, &mut taken);
                match taken {
                    State::Check(request) => {
                        *self = State::WaitReady(request);
                        Step::Continue
                    },
                    _ => unreached(),
                }
            },
            Ok(Async::NotReady) => Step::Suspend,
            Err(e) => {
                counts.release();
                *self = State::NoCapacity;
                Step::Resolve(Err(Error::Rejected(e)))
            },
        }
    }

    /// Advances an approved call once the inner service's readiness check
    /// produced `outcome`.  Readiness gives the slot back and hands the
    /// retained request out for dispatch; a readiness failure also gives
    /// the slot back and resolves with the inner error.
    pub fn on_ready<T, CE, IE>(
        &mut self,
        counts: &mut Counts,
        outcome: Result<Async<()>, IE>,
    ) -> (step: Step<R, T, CE, IE>)
        requires
            *old(self) is WaitReady,
            old(counts).rem < old(counts).buffer,
        ensures
            (final(self).phase(), *final(counts)) == gate_next(
                old(self).phase(),
                *old(counts),
                ready_event(outcome),
            ),
            match outcome {
                Ok(Async::Ready(_)) => *final(self) is NoCapacity
                    && *final(counts) == old(counts).spec_release()
                    && step == Step::<R, T, CE, IE>::Dispatch(old(self)->WaitReady_0),
                Ok(Async::NotReady) => *final(self) == *old(self)
                    && *final(counts) == *old(counts)
                    && step is Suspend,
                Err(e) => *final(self) is NoCapacity
                    && *final(counts) == old(counts).spec_release()
                    && step == Step::<R, T, CE, IE>::Resolve(Err(Error::Inner(e))),
            },
    {
        match outcome {
            Ok(Async::Ready(_)) => {
                counts.release();
                let mut taken = State::NoCapacity;
                core::mem::swap(self, &mut taken);
                match taken {
                    State::WaitReady(request) => Step::Dispatch(request),
                    _ => unreached(),
                }
            },
            Ok(Async::NotReady) => Step::Suspend,
            Err(e) => {
                counts.release();
                *self = State::NoCapacity;
                Step::Resolve(Err(Error::Inner(e)))
            },
        }
    }

    /// Installs the inner call's future right after a dispatch.
    pub fn install(&mut self, response: F)
        requires
            *old(self) is NoCapacity,
        ensures
            *final(self) == State::<R, F>::WaitResponse(response),
    {
        *self = State::WaitResponse(response);
    }

    /// Maps the in-flight inner call's poll outcome to the admitted call's
    /// resolution; the machine stays where it is.
    pub fn on_response<T, CE, IE>(
        &self,
        outcome: Result<Async<T>, IE>,
    ) -> (step: Step<R, T, CE, IE>)
        requires
            self is WaitResponse,
        ensures
            match outcome {
                Ok(Async::Ready(v)) => step == Step::<R, T, CE, IE>::Resolve(Ok(v)),
                Ok(Async::NotReady) => step is Suspend,
                Err(e) => step == Step::<R, T, CE, IE>::Resolve(Err(Error::Inner(e))),
            },
    {
        match outcome {
            Ok(Async::Ready(v)) => Step::Resolve(Ok(v)),
            Ok(Async::NotReady) => Step::Suspend,
            Err(e) => Step::Resolve(Err(Error::Inner(e))),
        }
    }

    /// Abandons the call at whatever point it reached, giving the slot
    /// back if it was still out.  A driver that drops a pending call must
    /// perform this release, or the slot would leak for good.
    pub fn abandon(&mut self, counts: &mut Counts)
        requires
            old(self).holds_slot() ==> old(counts).rem < old(counts).buffer,
        ensures
            *final(self) is NoCapacity,
            *final(counts) == if old(self).holds_slot() {
                old(counts).spec_release()
            } else {
                *old(counts)
            },
            (final(self).phase(), *final(counts)) == gate_next(
                old(self).phase(),
                *old(counts),
                GateEvent::Abandoned,
            ),
    {
        let held = match &*self {
            State::Check(_) => true,
            State::WaitReady(_) => true,
            _ => false,
        };
        if held {
            counts.release();
        }
        *self = State::NoCapacity;
    }
}

/// The payload-free mirror of [`State`], for laws over whole event
/// sequences.
pub enum Phase {
    Check,
    WaitReady,
    WaitResponse,
    NoCapacity,
}

impl<R, F> State<R, F> {
    pub open spec fn phase(self) -> Phase {
        match self {
            State::Check(_) => Phase::Check,
            State::WaitReady(_) => Phase::WaitReady,
            State::WaitResponse(_) => Phase::WaitResponse,
            State::NoCapacity => Phase::NoCapacity,
        }
    }
}

/// A call's phases in the order it can pass through them; every advance
/// either suspends, resolves, or moves strictly down this rank.
pub open spec fn rank_of(p: Phase) -> int {
    match p {
        Phase::Check => 3,
        Phase::WaitReady => 2,
        Phase::WaitResponse => 1,
        Phase::NoCapacity => 0,
    }
}

/// How many admission slots a phase still holds.
pub open spec fn slot_of(p: Phase) -> int {
    match p {
        Phase::Check => 1,
        Phase::WaitReady => 1,
        Phase::WaitResponse => 0,
        Phase::NoCapacity => 0,
    }
}

/// The outcome kinds of the asynchronous steps a gate call waits on, one
/// per case of the advance operations above.
pub enum GateEvent {
    /// The predicate approved the request.
    Approved,
    /// The predicate's future is still pending.
    CheckPending,
    /// The predicate rejected the request.
    Rejected,
    /// The inner service reported ready; the slot goes back and the
    /// request is handed out for dispatch.
    Dispatched,
    /// The inner service's readiness is still pending.
    ReadyPending,
    /// The inner service's readiness check failed.
    ReadyFailed,
    /// The dispatched call's future was installed.
    Installed,
    /// The inner call finished, successfully or not.
    ResponseDone,
    /// The inner call is still pending.
    ResponsePending,
    /// The driver abandoned the call where it stood.
    Abandoned,
}

/// Which events can reach a call in each phase.
pub open spec fn gate_fits(p: Phase, e: GateEvent) -> bool {
    match p {
        Phase::Check => e is Approved || e is CheckPending || e is Rejected || e is Abandoned,
        Phase::WaitReady => e is Dispatched || e is ReadyPending || e is ReadyFailed
            || e is Abandoned,
        Phase::WaitResponse => e is ResponseDone || e is ResponsePending || e is Abandoned,
        Phase::NoCapacity => e is Installed || e is Abandoned,
    }
}

/// One advance of an admitted call, as it acts on the call's phase and the
/// shared counter.  The advance operations below each ensure that they
/// took exactly one of these steps, so the laws over runs of this function
/// carry over to any driver of the executable machine.
pub open spec fn gate_next(p: Phase, c: Counts, e: GateEvent) -> (Phase, Counts) {
    match e {
        GateEvent::Approved => (Phase::WaitReady, c),
        GateEvent::CheckPending => (p, c),
        GateEvent::Rejected => (Phase::NoCapacity, c.spec_release()),
        GateEvent::Dispatched => (Phase::NoCapacity, c.spec_release()),
        GateEvent::ReadyPending => (p, c),
        GateEvent::ReadyFailed => (Phase::NoCapacity, c.spec_release()),
        GateEvent::Installed => (Phase::WaitResponse, c),
        GateEvent::ResponseDone => (p, c),
        GateEvent::ResponsePending => (p, c),
        GateEvent::Abandoned => (
            Phase::NoCapacity,
            if slot_of(p) == 1 { c.spec_release() } else { c },
        ),
    }
}

/// The event kind of a predicate check's outcome.
pub open spec fn check_event<CE>(outcome: Result<Async<()>, CE>) -> GateEvent {
    match outcome {
        Ok(Async::Ready(_)) => GateEvent::Approved,
        Ok(Async::NotReady) => GateEvent::CheckPending,
        Err(_) => GateEvent::Rejected,
    }
}

/// The event kind of the inner readiness check's outcome.
pub open spec fn ready_event<IE>(outcome: Result<Async<()>, IE>) -> GateEvent {
    match outcome {
        Ok(Async::Ready(_)) => GateEvent::Dispatched,
        Ok(Async::NotReady) => GateEvent::ReadyPending,
        Err(_) => GateEvent::ReadyFailed,
    }
}

/// The event kind of the inner call's poll outcome.
pub open spec fn response_event<T, IE>(outcome: Result<Async<T>, IE>) -> GateEvent {
    match outcome {
        Ok(Async::Ready(_)) => GateEvent::ResponseDone,
        Ok(Async::NotReady) => GateEvent::ResponsePending,
        Err(_) => GateEvent::ResponseDone,
    }
}

/// Runs a call through a sequence of events; an event that cannot reach
/// the current phase changes nothing.
pub open spec fn gate_run(p: Phase, c: Counts, evs: Seq<GateEvent>) -> (Phase, Counts)
    decreases evs.len(),
{
    if evs.len() == 0 {
        (p, c)
    } else if gate_fits(p, evs[0]) {
        let stepped = gate_next(p, c, evs[0]);
        gate_run(stepped.0, stepped.1, evs.subrange(1, evs.len() as int))
    } else {
        gate_run(p, c, evs.subrange(1, evs.len() as int))
    }
}

/// Capacity conservation: however an admitted call's checking, readiness
/// and response steps interleave and end, the sum of the free slots and
/// the call's held slot never changes — the slot the call took is given
/// back exactly once, whatever the outcome, and never twice.
pub proof fn lemma_slot_conservation(p: Phase, c: Counts, evs: Seq<GateEvent>)
    requires
        c.wf(),
        slot_of(p) == 1 ==> c.rem < c.buffer,
    ensures
        gate_run(p, c, evs).1.rem + slot_of(gate_run(p, c, evs).0) == c.rem + slot_of(p),
        gate_run(p, c, evs).1.wf(),
        slot_of(gate_run(p, c, evs).0) == 1 ==> gate_run(p, c, evs).1.rem < gate_run(p, c, evs).1.buffer,
        gate_run(p, c, evs).1.buffer == c.buffer,
    decreases evs.len(),
{
    if evs.len() > 0 {
        if gate_fits(p, evs[0]) {
            let stepped = gate_next(p, c, evs[0]);
            lemma_slot_conservation(stepped.0, stepped.1, evs.subrange(1, evs.len() as int));
        } else {
            lemma_slot_conservation(p, c, evs.subrange(1, evs.len() as int));
        }
    }
}

/// Capacity conservation, read at the counter: once an admitted call's
/// phase no longer holds its slot, the counter stands exactly one above
/// where admission left it, whether the call was rejected, failed at
/// readiness, or went through.
pub proof fn lemma_capacity_conservation(c: Counts, evs: Seq<GateEvent>)
    requires
        c.wf(),
        c.rem < c.buffer,
    ensures
        slot_of(gate_run(Phase::Check, c, evs).0) == 0 ==> gate_run(
            Phase::Check,
            c,
            evs,
        ).1.rem == c.rem + 1,
{
    lemma_slot_conservation(Phase::Check, c, evs);
}

/// Conditionally dispatches requests to an inner service: each request
/// must find a free admission slot and pass the predicate before the inner
/// service is called.
#[derive(Debug)]
pub struct Filter<T, U, R> {
    pub inner: T,
    pub predicate: U,
    /// Shared with every call in flight: a driver hands it to each
    /// response future's `poll` in turn.
    pub counts: Counts,
    pub _req: PhantomData<R>,
}

/// The response future an admission returns; `inner` is empty exactly when no
/// admission slot was free at the call, and such a future resolves
/// straight to the capacity error.
pub struct ResponseFuture<T, S, R> where S: Service<R> {
    pub inner: Option<ResponseInner<T, S, R>>,
}

/// One admitted call: its phase, the predicate's pending check, and the
/// call's own handle on the inner service.
pub struct ResponseInner<T, S, R> where S: Service<R> {
    pub state: State<R, S::Future>,
    pub check: T,
    pub service: S,
}

impl<T, U, R> Filter<T, U, R>
where
    T: Service<R> + Clone,
    U: Predicate<R>,
{
    /// A gate with `buffer` admission slots around `inner`.
    pub fn new(inner: T, predicate: U, buffer: usize) -> (f: Filter<T, U, R>)
        ensures
            f.inner == inner,
            f.predicate == predicate,
            f.counts == Counts::spec_new(buffer),
            f.counts.wf(),
    {
        Filter { inner, predicate, counts: Counts::new(buffer), _req: PhantomData }
    }

    /// Registers the calling task as the waiter, then reports ready
    /// exactly when an admission slot is currently free.  Readiness itself
    /// never fails.
    pub fn poll_ready(&mut self) -> (r: Result<Async<()>, Error<U::Error, T::Error>>)
        ensures
            final(self).counts == spec_poll_ready(old(self).counts).0,
            r matches Ok(a) && (a is Ready <==> spec_poll_ready(old(self).counts).1),
            final(self).inner == old(self).inner,
            final(self).predicate == old(self).predicate,
    {
        self.counts.register();
        if self.counts.rem == 0 {
            Ok(Async::NotReady)
        } else {
            Ok(Async::Ready(()))
        }
    }

    /// Admits the request if a slot is free — taking the slot and starting
    /// the predicate's check on a clone of the inner service — and
    /// otherwise returns the future that resolves to the capacity error.
    /// A racing caller that saw readiness earlier gets the error future,
    /// never a panic.
    pub fn call(&mut self, request: R) -> (r: ResponseFuture<U::Future, T, R>)
        requires
            old(self).counts.wf(),
        ensures
            final(self).counts == old(self).counts.spec_admit(),
            final(self).counts.wf(),
            final(self).inner == old(self).inner,
            r.inner is None <==> old(self).counts.rem == 0,
            r.inner matches Some(call) ==> call.state == State::<R, T::Future>::Check(request)
                && final(self).counts.rem < final(self).counts.buffer,
    {
        if !self.counts.try_admit() {
            return ResponseFuture { inner: None };
        }
        let check = self.predicate.check(&request);
        let service = self.inner.clone();
        ResponseFuture { inner: Some(ResponseInner { state: State::Check(request), check, service }) }
    }
}

impl<T, S, R> ResponseInner<T, S, R>
where
    T: Future<Item = ()>,
    S: Service<R>,
{
    /// Drives the admitted call one poll: the predicate's check, then the
    /// inner service's readiness, then dispatch and the inner call itself,
    /// each transition exactly as the advance operations above state.  The
    /// driver hands in the shared counter; whenever the poll returns
    /// anything but `NotReady`, the call's slot has been given back.
    pub fn poll(&mut self, counts: &mut Counts) -> (r: Result<
        Async<S::Response>,
        Error<T::Error, S::Error>,
    >)
        requires
            old(counts).wf(),
            old(self).state.holds_slot() ==> old(counts).rem < old(counts).buffer,
        ensures
            final(counts).wf(),
            final(counts).buffer == old(counts).buffer,
            final(counts).rem + slot_of(final(self).state.phase()) == old(counts).rem + slot_of(
                old(self).state.phase(),
            ),
            final(self).state.holds_slot() ==> final(counts).rem < final(counts).buffer,
            !(r matches Ok(Async::NotReady)) ==> !final(self).state.holds_slot(),
            r matches Err(Error::NoCapacity) <==> old(self).state is NoCapacity,
            r matches Err(Error::Rejected(_)) ==> old(self).state is Check
                && final(self).state is NoCapacity,
            old(self).state is NoCapacity ==> *final(counts) == *old(counts),
    {
        loop
            invariant
                counts.wf(),
                counts.buffer == old(counts).buffer,
                self.state.holds_slot() ==> counts.rem < counts.buffer,
                counts.rem + slot_of(self.state.phase()) == old(counts).rem + slot_of(
                    old(self).state.phase(),
                ),
                self.state is Check ==> old(self).state is Check,
                self.state is NoCapacity <==> old(self).state is NoCapacity,
                self.state is NoCapacity ==> *counts == *old(counts),
            decreases rank_of(self.state.phase()),
        {
            let in_check = match &self.state {
                State::Check(_) => true,
                _ => false,
            };
            if in_check {
                let outcome = self.check.poll();
                let step = self.state.on_check::<S::Response, T::Error, S::Error>(counts, outcome);
                match step {
                    Step::Continue => {},
                    Step::Suspend => {
                        return Ok(Async::NotReady);
                    },
                    Step::Resolve(res) => {
                        return match res {
                            Ok(v) => Ok(Async::Ready(v)),
                            Err(e) => Err(e),
                        };
                    },
                    Step::Dispatch(_) => {
                        return unreached();
                    },
                }
            } else {
                let in_ready = match &self.state {
                    State::WaitReady(_) => true,
                    _ => false,
                };
                if in_ready {
                    let outcome = self.service.poll_ready();
                    let step = self.state.on_ready::<S::Response, T::Error, S::Error>(
                        counts,
                        outcome,
                    );
                    match step {
                        Step::Continue => {},
                        Step::Suspend => {
                            return Ok(Async::NotReady);
                        },
                        Step::Resolve(res) => {
                            return match res {
                                Ok(v) => Ok(Async::Ready(v)),
                                Err(e) => Err(e),
                            };
                        },
                        Step::Dispatch(request) => {
                            let response = self.service.call(request);
                            self.state.install(response);
                        },
                    }
                } else {
                    let in_response = match &self.state {
                        State::WaitResponse(_) => true,
                        _ => false,
                    };
                    if in_response {
                        let outcome = match &mut self.state {
                            State::WaitResponse(f) => f.poll(),
                            _ => unreached(),
                        };
                        let step = self.state.on_response::<S::Response, T::Error, S::Error>(
                            outcome,
                        );
                        match step {
                            Step::Continue => {},
                            Step::Suspend => {
                                return Ok(Async::NotReady);
                            },
                            Step::Resolve(res) => {
                                return match res {
                                    Ok(v) => Ok(Async::Ready(v)),
                                    Err(e) => Err(e),
                                };
                            },
                            Step::Dispatch(_) => {
                                return unreached();
                            },
                        }
                    } else {
                        return Err(Error::NoCapacity);
                    }
                }
            }
        }
    }
}

impl<T, S, R> ResponseFuture<T, S, R>
where
    T: Future<Item = ()>,
    S: Service<R>,
{
    /// How many admission slots this future still holds.
    pub open spec fn slots(self) -> int {
        match self.inner {
            Some(call) => slot_of(call.state.phase()),
            None => 0,
        }
    }

    /// Polls the admitted call, or resolves straight to the capacity error
    /// for a call that was never admitted.
    pub fn poll(&mut self, counts: &mut Counts) -> (r: Result<
        Async<S::Response>,
        Error<T::Error, S::Error>,
    >)
        requires
            old(counts).wf(),
            old(self).slots() == 1 ==> old(counts).rem < old(counts).buffer,
        ensures
            final(counts).wf(),
            final(counts).buffer == old(counts).buffer,
            final(counts).rem + final(self).slots() == old(counts).rem + old(self).slots(),
            final(self).slots() == 1 ==> final(counts).rem < final(counts).buffer,
            !(r matches Ok(Async::NotReady)) ==> final(self).slots() == 0,
            old(self).inner is None ==> (r matches Err(Error::NoCapacity)) && *final(counts)
                == *old(counts),
            (r matches Err(Error::NoCapacity)) <==> old(self).inner is None
                || (old(self).inner matches Some(call) && call.state is NoCapacity),
    {
        match &mut self.inner {
            Some(call) => call.poll(counts),
            None => Err(Error::NoCapacity),
        }
    }
}

} // verus!
