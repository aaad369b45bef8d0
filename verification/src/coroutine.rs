//! A computation on the executor, seen from the host as something to await.
//!
//! The host holds a placeholder that is settled once, with what the
//! computation came to. The placeholder is a state machine: the host's side
//! waits for the task, runs what happened through the placeholder and
//! carries out what it answers.

use std::future::Future;
use tokio::task::JoinHandle;
use vstd::future::FutureAdditionalSpecFns;
use vstd::prelude::*;

use crate::registry::Registry;
use crate::task::{cause_of, spawn, Cause, Failure};

verus! {

/// Where a placeholder stands.
#[derive(Clone, Copy, Debug, PartialEq, Eq, Structural)]
pub enum BridgeState {
    /// Nothing has been delivered yet and the host still listens.
    Pending,
    /// A value was delivered.
    Resolved,
    /// A failure of this kind was delivered.
    Rejected(Cause),
    /// The host stopped listening before anything was delivered.
    Detached,
}

/// What the host's side has to do with a completion.
#[derive(Debug, PartialEq, Eq)]
pub enum Delivery<T, E> {
    /// Resolve the host's awaitable with this value.
    Resolve(T),
    /// Reject the host's awaitable with this failure.
    Reject(Failure<E>),
    /// Drop the completion: nobody listens, or something was delivered before.
    Discard,
}

/// What can happen to a placeholder.
pub enum Event<T, E> {
    /// The task ended, with this completion.
    Completed(Result<T, Failure<E>>),
    /// The host tore its receiver down.
    TornDown,
}

/// The state in which delivering `completion` leaves a placeholder.
pub open spec fn settlement_of<T, E>(completion: Result<T, Failure<E>>) -> BridgeState {
    match completion {
        Ok(_) => BridgeState::Resolved,
        Err(failure) => BridgeState::Rejected(cause_of(failure)),
    }
}

/// The state after the host tore its receiver down. Only a pending
/// placeholder moves.
pub open spec fn detached(state: BridgeState) -> BridgeState {
    match state {
        BridgeState::Pending => BridgeState::Detached,
        _ => state,
    }
}

/// Whether the host still listens, by what it answers when asked whether its
/// receiver was cancelled and whether its event loop is closed.
pub open spec fn listening(cancelled: Option<bool>, closed: Option<bool>) -> bool {
    cancelled == Some(false) && closed == Some(false)
}

/// The state once the host's answers have been heard: a host that does not
/// listen any more has torn its receiver down.
pub open spec fn heard(state: BridgeState, cancelled: Option<bool>, closed: Option<bool>) -> BridgeState {
    if listening(cancelled, closed) {
        state
    } else {
        detached(state)
    }
}

/// The state after `event`. Only a pending placeholder moves.
pub open spec fn next_state<T, E>(state: BridgeState, event: Event<T, E>) -> BridgeState {
    match event {
        Event::Completed(completion) => match state {
            BridgeState::Pending => settlement_of(completion),
            _ => state,
        },
        Event::TornDown => detached(state),
    }
}

/// What `event` makes the host's side do. Only the completion of a pending
/// placeholder is delivered.
pub open spec fn delivery_of<T, E>(state: BridgeState, event: Event<T, E>) -> Delivery<T, E> {
    match (state, event) {
        (BridgeState::Pending, Event::Completed(Ok(value))) => Delivery::Resolve(value),
        (BridgeState::Pending, Event::Completed(Err(failure))) => Delivery::Reject(failure),
        _ => Delivery::Discard,
    }
}

/// The state after all of `events`, in order.
pub open spec fn state_after<T, E>(state: BridgeState, events: Seq<Event<T, E>>) -> BridgeState
    decreases events.len(),
{
    if events.len() == 0 {
        state
    } else {
        state_after(next_state(state, events[0]), events.drop_first())
    }
}

/// How many of `events`, in order, lead to a delivery other than `Discard`.
pub open spec fn settlements<T, E>(state: BridgeState, events: Seq<Event<T, E>>) -> nat
    decreases events.len(),
{
    if events.len() == 0 {
        0
    } else {
        let here: nat = if delivery_of(state, events[0]) is Discard {
            0
        } else {
            1
        };
        here + settlements(next_state(state, events[0]), events.drop_first())
    }
}

/// The placeholder for the outcome of one task.
pub struct BridgeFuture {
    state: BridgeState,
}

impl View for BridgeFuture {
    type V = BridgeState;

    closed spec fn view(&self) -> BridgeState {
        self.state
    }
}

impl BridgeFuture {
    /// A pending placeholder.
    pub fn new() -> (future: BridgeFuture)
        ensures
            future@ == BridgeState::Pending,
    {
        BridgeFuture { state: BridgeState::Pending }
    }

    /// Where the placeholder stands.
    pub fn state(&self) -> (state: BridgeState)
        ensures
            state == self@,
    {
        self.state
    }

    /// Takes the completion of the task and says what to do with it. A
    /// pending placeholder is settled by it; any other stays as it is and
    /// the completion is to be dropped.
    pub fn settle<T, E>(&mut self, completion: Result<T, Failure<E>>) -> (delivery: Delivery<T, E>)
        ensures
            final(self)@ == next_state(old(self)@, Event::Completed(completion)),
            delivery == delivery_of(old(self)@, Event::Completed(completion)),
    {
        match self.state {
            BridgeState::Pending => match completion {
                Ok(value) => {
                    self.state = BridgeState::Resolved;
                    Delivery::Resolve(value)
                },
                Err(failure) => {
                    self.state = BridgeState::Rejected(failure.cause());
                    Delivery::Reject(failure)
                },
            },
            _ => Delivery::Discard,
        }
    }

    /// Takes the completion of the task together with what the host answers
    /// when asked whether its receiver was cancelled and whether its event
    /// loop is closed, `None` where it gave no answer. Unless both answers
    /// are a plain no, the receiver counts as torn down before the completion
    /// is looked at.
    pub fn conclude<T, E>(
        &mut self,
        cancelled: Option<bool>,
        closed: Option<bool>,
        completion: Result<T, Failure<E>>,
    ) -> (delivery: Delivery<T, E>)
        ensures
            final(self)@ == next_state(
                heard(old(self)@, cancelled, closed),
                Event::Completed(completion),
            ),
            delivery == delivery_of(
                heard(old(self)@, cancelled, closed),
                Event::Completed(completion),
            ),
    {
        match (cancelled, closed) {
            (Some(false), Some(false)) => {},
            _ => {
                self.detach();
            },
        }
        self.settle(completion)
    }

    /// Records that the host tore its receiver down. This stops nothing: the
    /// task runs on, and its completion will be dropped.
    pub fn detach(&mut self)
        ensures
            final(self)@ == detached(old(self)@),
    {
        match self.state {
            BridgeState::Pending => {
                self.state = BridgeState::Detached;
            },
            _ => {},
        }
    }
}

/// A task on the executor together with the placeholder for its outcome.
#[verifier::reject_recursive_types(T)]
#[verifier::reject_recursive_types(E)]
pub struct Coroutine<T, E> {
    /// The placeholder that the host awaits.
    pub future: BridgeFuture,
    /// The task that runs the computation.
    pub task: JoinHandle<Result<T, E>>,
}

impl<T, E> Coroutine<T, E> {
    /// Records that the host tore its receiver down. The task is left to
    /// run to its end.
    pub fn cancel(&mut self)
        ensures
            final(self).future@ == detached(old(self).future@),
            final(self).task == old(self).task,
    {
        self.future.detach();
    }
}

/// Hands `fut` to the executor in use and returns at once, with a pending
/// placeholder for what `fut` will come to.
pub fn into_coroutine<F, T, E>(registry: &Registry, fut: F) -> (coroutine: Coroutine<T, E>) where
    F: Future<Output = Result<T, E>> + Send + 'static,
    T: Send + 'static,
    E: Send + 'static,

    requires
        registry@ is Some,
    ensures
        coroutine.future@ == BridgeState::Pending,
        coroutine.task@ matches Ok(produced) ==> produced == fut@,
{
    Coroutine { future: BridgeFuture::new(), task: spawn(registry, fut) }
}

/// A placeholder that has left the pending state stays where it is and
/// delivers nothing more, whatever happens to it.
pub proof fn lemma_settled_is_final<T, E>(state: BridgeState, events: Seq<Event<T, E>>)
    requires
        state != BridgeState::Pending,
    ensures
        state_after(state, events) == state,
        settlements(state, events) == 0,
    decreases events.len(),
{
    if events.len() > 0 {
        lemma_settled_is_final(state, events.drop_first());
    }
}

/// No run of events leads to more than one delivery.
pub proof fn lemma_settles_at_most_once<T, E>(state: BridgeState, events: Seq<Event<T, E>>)
    ensures
        settlements(state, events) <= 1,
    decreases events.len(),
{
    if events.len() > 0 {
        let next = next_state(state, events[0]);
        if next == BridgeState::Pending {
            lemma_settles_at_most_once(next, events.drop_first());
        } else {
            lemma_settled_is_final(next, events.drop_first());
        }
    }
}

/// Where the task ends while the host still listens, its completion is
/// delivered, as a value or as a failure of the same kind, and it is the only
/// delivery, whatever happens afterwards.
pub proof fn lemma_first_completion_settles<T, E>(
    completion: Result<T, Failure<E>>,
    later: Seq<Event<T, E>>,
)
    ensures
        delivery_of(BridgeState::Pending, Event::Completed(completion)) == match completion {
            Ok(value) => Delivery::Resolve(value),
            Err(failure) => Delivery::Reject(failure),
        },
        settlements(BridgeState::Pending, seq![Event::Completed(completion)] + later) == 1,
        state_after(BridgeState::Pending, seq![Event::Completed(completion)] + later)
            == settlement_of(completion),
{
    let events = seq![Event::Completed(completion)] + later;
    assert(events.drop_first() =~= later);
    lemma_settled_is_final(settlement_of(completion), later);
}

/// A completion that finds the host no longer listening is dropped, and
/// a placeholder that was pending is left detached.
pub proof fn lemma_unheard_completion_is_dropped<T, E>(
    state: BridgeState,
    cancelled: Option<bool>,
    closed: Option<bool>,
    completion: Result<T, Failure<E>>,
)
    requires
        !listening(cancelled, closed),
    ensures
        delivery_of(heard(state, cancelled, closed), Event::Completed(completion)) is Discard,
        next_state(heard(state, cancelled, closed), Event::Completed(completion)) == detached(
            state,
        ),
{
}

/// Where the host tears its receiver down before the task has ended, nothing
/// is ever delivered: every later completion is dropped.
pub proof fn lemma_teardown_discards<T, E>(later: Seq<Event<T, E>>)
    ensures
        settlements(BridgeState::Pending, seq![Event::TornDown] + later) == 0,
        state_after(BridgeState::Pending, seq![Event::TornDown] + later) == BridgeState::Detached,
{
    let events = seq![Event::<T, E>::TornDown] + later;
    assert(events.drop_first() =~= later);
    lemma_settled_is_final(BridgeState::Detached, later);
}

} // verus!
