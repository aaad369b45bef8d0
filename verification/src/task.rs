//! Handing work to the executor and bringing its outcome back.
//!
//! Waiting for a task is left to the caller: a thread that blocks on a task
//! must not be one that the executor needs in order to finish it, and only
//! the caller knows which threads those are.

use std::future::Future;
use tokio::runtime::Handle;
use tokio::task::{JoinError, JoinHandle};
use vstd::future::FutureAdditionalSpecFns;
use vstd::prelude::*;

use crate::registry::{get_handle, Registry};

verus! {

/// Tokio's handle to a spawned task, carried through as it is. As a future
/// it yields what the task produced, or the error with which it ended.
#[verifier::external_type_specification]
#[verifier::external_body]
#[verifier::reject_recursive_types(T)]
pub struct ExJoinHandle<T>(tokio::task::JoinHandle<T>);

/// Tokio's account of a task that did not run to its end, carried through as
/// it is.
#[verifier::external_type_specification]
#[verifier::external_body]
pub struct ExJoinError(tokio::task::JoinError);

/// Whether the task behind `error` ended in a panic, as opposed to having
/// been cancelled.
pub uninterp spec fn panicked(error: JoinError) -> bool;

/// `JoinError::is_panic`: whether the error stands for a panic of the task.
#[verifier::external_body]
fn join_error_is_panic(error: &JoinError) -> (panic: bool)
    ensures
        panic == panicked(*error),
{
    error.is_panic()
}

/// `Handle::spawn`: hands `fut` to the executor behind `handle` and returns
/// at once. Where the returned handle yields a value, it is the one that
/// `fut` produced. On an executor that has been shut down the task is
/// cancelled at once.
#[verifier::external_body]
fn handle_spawn<F, T>(handle: &Handle, fut: F) -> (task: JoinHandle<T>) where
    F: Future<Output = T> + Send + 'static,
    T: Send + 'static,

    ensures
        task@ matches Ok(value) ==> value == fut@,
{
    handle.spawn(fut)
}

/// How a task that was handed to the executor ended.
#[derive(Debug, PartialEq, Eq)]
pub enum JoinOutcome<T> {
    /// The task ran to its end and produced this value.
    Finished(T),
    /// The task panicked.
    Panicked,
    /// The task was cancelled before it reached its end.
    Cancelled,
}

/// Why a computation that was driven to its end gave no value.
#[derive(Debug, PartialEq, Eq)]
pub enum Failure<E> {
    /// The computation itself reported this failure.
    Application(E),
    /// The task that ran the computation panicked.
    Panicked,
    /// The task that ran the computation was cancelled.
    Cancelled,
}

/// The kind of a failure, without what it carries.
#[derive(Clone, Copy, Debug, PartialEq, Eq, Structural)]
pub enum Cause {
    /// The computation itself reported the failure.
    Application,
    /// The task panicked.
    Panicked,
    /// The task was cancelled.
    Cancelled,
}

/// The kind of `failure`.
pub open spec fn cause_of<E>(failure: Failure<E>) -> Cause {
    match failure {
        Failure::Application(_) => Cause::Application,
        Failure::Panicked => Cause::Panicked,
        Failure::Cancelled => Cause::Cancelled,
    }
}

impl<E> Failure<E> {
    /// The kind of this failure.
    pub fn cause(&self) -> (cause: Cause)
        ensures
            cause == cause_of(*self),
    {
        match self {
            Failure::Application(_) => Cause::Application,
            Failure::Panicked => Cause::Panicked,
            Failure::Cancelled => Cause::Cancelled,
        }
    }
}

/// The outcome that a join result stands for.
pub open spec fn outcome_of<T>(joined: Result<T, JoinError>) -> JoinOutcome<T> {
    match joined {
        Ok(value) => JoinOutcome::Finished(value),
        Err(error) => if panicked(error) {
            JoinOutcome::Panicked
        } else {
            JoinOutcome::Cancelled
        },
    }
}

/// What the one who asked for a computation is told of its outcome.
pub open spec fn completion_of<T, E>(outcome: JoinOutcome<Result<T, E>>) -> Result<T, Failure<E>> {
    match outcome {
        JoinOutcome::Finished(Ok(value)) => Ok(value),
        JoinOutcome::Finished(Err(error)) => Err(Failure::Application(error)),
        JoinOutcome::Panicked => Err(Failure::Panicked),
        JoinOutcome::Cancelled => Err(Failure::Cancelled),
    }
}

impl<T> JoinOutcome<T> {
    /// Whether the task panicked.
    pub fn is_panic(&self) -> (panic: bool)
        ensures
            panic == (*self is Panicked),
    {
        match self {
            JoinOutcome::Panicked => true,
            _ => false,
        }
    }
}

/// Tells a panic from a cancellation in what a join handle returned.
pub fn classify<T>(joined: Result<T, JoinError>) -> (outcome: JoinOutcome<T>)
    ensures
        outcome == outcome_of(joined),
{
    match joined {
        Ok(value) => JoinOutcome::Finished(value),
        Err(error) => {
            if join_error_is_panic(&error) {
                JoinOutcome::Panicked
            } else {
                JoinOutcome::Cancelled
            }
        },
    }
}

/// Turns the outcome of a task into what its caller is told: the value, the
/// failure that the computation reported, unchanged, or the way the task
/// ended without either.
pub fn report<T, E>(outcome: JoinOutcome<Result<T, E>>) -> (completion: Result<T, Failure<E>>)
    ensures
        completion == completion_of(outcome),
{
    match outcome {
        JoinOutcome::Finished(Ok(value)) => Ok(value),
        JoinOutcome::Finished(Err(error)) => Err(Failure::Application(error)),
        JoinOutcome::Panicked => Err(Failure::Panicked),
        JoinOutcome::Cancelled => Err(Failure::Cancelled),
    }
}

/// Hands `fut` to the executor in use and returns without waiting for it.
/// Where the task runs to its end, its handle yields what `fut` produced.
pub fn spawn<F, T>(registry: &Registry, fut: F) -> (task: JoinHandle<T>) where
    F: Future<Output = T> + Send + 'static,
    T: Send + 'static,

    requires
        registry@ is Some,
    ensures
        task@ matches Ok(value) ==> value == fut@,
{
    handle_spawn(get_handle(registry), fut)
}

/// What the one who asked for a computation is told, from what the join
/// handle of its task returned to whoever waited for it.
pub fn complete<T, E>(joined: Result<Result<T, E>, JoinError>) -> (completion: Result<
    T,
    Failure<E>,
>)
    ensures
        completion == completion_of(outcome_of(joined)),
{
    report(classify(joined))
}

/// A task that ran to its end hands on what the computation gave: its value,
/// or the failure that it reported, unchanged.
pub proof fn lemma_result_is_passed_on<T, E>(produced: Result<T, E>)
    ensures
        completion_of(outcome_of(Ok::<Result<T, E>, JoinError>(produced))) == match produced {
            Ok(value) => Ok::<T, Failure<E>>(value),
            Err(error) => Err(Failure::Application(error)),
        },
{
}

/// A task that did not run to its end is reported as panicked or as
/// cancelled, and neither report equals that of a failure which a
/// computation reported itself, whatever that failure carries.
pub proof fn lemma_panic_is_told_apart<T, E>(error: JoinError, reported: E)
    ensures
        completion_of(outcome_of(Err::<Result<T, E>, JoinError>(error))) == if panicked(error) {
            Err::<T, Failure<E>>(Failure::Panicked)
        } else {
            Err::<T, Failure<E>>(Failure::Cancelled)
        },
        completion_of(outcome_of(Err::<Result<T, E>, JoinError>(error))) != Err::<T, Failure<E>>(
            Failure::Application(reported),
        ),
{
}

} // verus!
