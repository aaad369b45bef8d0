//! Building executors in one of two configurations.

use tokio::runtime::{Builder, Handle, Runtime, RuntimeFlavor};
use vstd::prelude::*;

verus! {

/// Tokio's executor, carried through as it is. Tasks run for as long as the
/// value is kept.
#[verifier::external_type_specification]
#[verifier::external_body]
pub struct ExRuntime(tokio::runtime::Runtime);

/// Tokio's handle to an executor, carried through as it is.
#[verifier::external_type_specification]
#[verifier::external_body]
pub struct ExHandle(tokio::runtime::Handle);

/// The error with which the operating system refuses what an executor needs.
#[verifier::external_type_specification]
#[verifier::external_body]
pub struct ExIoError(std::io::Error);

/// The handle through which work reaches the executor `runtime`: what
/// `Runtime::handle` refers to.
pub uninterp spec fn handle_of(runtime: Runtime) -> Handle;

/// Whether `handle` refers to an executor with a pool of worker threads, as
/// opposed to one that runs every task on the thread that drives it.
pub uninterp spec fn pooled(handle: Handle) -> bool;

/// The two configurations in which an executor is built.
#[derive(Clone, Copy, Debug, PartialEq, Eq, Structural)]
pub enum Flavor {
    /// Every task runs, interleaved with the others, on one thread.
    CurrentThread,
    /// Tasks are spread over a pool of worker threads.
    MultiThread,
}

/// The executor of the named configuration could not be built.
#[derive(Debug)]
pub struct BuildError {
    /// The configuration that was asked for.
    pub flavor: Flavor,
    /// What the operating system refused.
    pub source: std::io::Error,
}

/// The largest number of workers that a pooled executor is built with.
/// Tokio counts the workers that look for work in sixteen bits.
pub const MAX_WORKERS: usize = 65535;

/// The numbers of workers with which a pooled executor can be built: at
/// least one, and no more than Tokio can count.
pub open spec fn workers_fit(workers: usize) -> bool {
    0 < workers <= MAX_WORKERS
}

/// The flavor of the executor behind `handle`.
pub open spec fn flavor_of(handle: Handle) -> Flavor {
    if pooled(handle) {
        Flavor::MultiThread
    } else {
        Flavor::CurrentThread
    }
}

/// What an attempt to build an executor of `flavor` may give: an executor of
/// that flavor, or an error that names it.
pub open spec fn built_as(built: Result<Runtime, BuildError>, flavor: Flavor) -> bool {
    match built {
        Ok(runtime) => flavor_of(handle_of(runtime)) == flavor,
        Err(e) => e.flavor == flavor,
    }
}

/// `Builder::new_current_thread().enable_all().build()`: on success the
/// runtime uses the current-thread scheduler.
#[verifier::external_body]
fn build_current_thread() -> (built: Result<Runtime, std::io::Error>)
    ensures
        built matches Ok(runtime) ==> !pooled(handle_of(runtime)),
{
    Builder::new_current_thread().enable_all().build()
}

/// `Builder::new_multi_thread().worker_threads(workers).enable_all().build()`:
/// on success the runtime uses the multi-thread scheduler. `worker_threads`
/// refuses 0; `build` adds the workers to the 512 threads for blocking work,
/// makes room for each worker and keeps count of the idle ones in sixteen
/// bits. With the number of workers given, the builder does not consult the
/// environment for it. It starts the workers at once, and Tokio gives up
/// where the operating system has no thread left for one.
#[verifier::external_body]
fn build_multi_thread(workers: usize) -> (built: Result<Runtime, std::io::Error>)
    requires
        workers_fit(workers),
    ensures
        built matches Ok(runtime) ==> pooled(handle_of(runtime)),
{
    Builder::new_multi_thread().worker_threads(workers).enable_all().build()
}

/// `Handle::runtime_flavor`: whether it is the multi-thread flavor.
#[verifier::external_body]
fn handle_is_pooled(handle: &Handle) -> (answer: bool)
    ensures
        answer == pooled(*handle),
{
    matches!(handle.runtime_flavor(), RuntimeFlavor::MultiThread)
}

/// `Runtime::handle`, cloned: every call on one runtime gives a handle to
/// that same runtime.
#[verifier::external_body]
pub(crate) fn runtime_handle(runtime: &Runtime) -> (handle: Handle)
    ensures
        handle == handle_of(*runtime),
{
    runtime.handle().clone()
}

/// Builds a single-threaded executor. It runs tasks only while a thread
/// blocks on it.
pub fn current_thread() -> (built: Result<Runtime, BuildError>)
    ensures
        built_as(built, Flavor::CurrentThread),
{
    match build_current_thread() {
        Ok(runtime) => Ok(runtime),
        Err(source) => Err(BuildError { flavor: Flavor::CurrentThread, source }),
    }
}

/// Builds an executor with a pool of `workers` worker threads. It runs tasks
/// for as long as the returned value is kept.
pub fn multi_thread(workers: usize) -> (built: Result<Runtime, BuildError>)
    requires
        workers_fit(workers),
    ensures
        built_as(built, Flavor::MultiThread),
{
    match build_multi_thread(workers) {
        Ok(runtime) => Ok(runtime),
        Err(source) => Err(BuildError { flavor: Flavor::MultiThread, source }),
    }
}

/// Builds an executor of the given flavor. A single-threaded executor has no
/// use for `workers`.
pub fn build(flavor: Flavor, workers: usize) -> (built: Result<Runtime, BuildError>)
    requires
        flavor == Flavor::MultiThread ==> workers_fit(workers),
    ensures
        built_as(built, flavor),
{
    match flavor {
        Flavor::CurrentThread => current_thread(),
        Flavor::MultiThread => multi_thread(workers),
    }
}

/// The flavor of the executor behind `handle`.
pub fn flavor(handle: &Handle) -> (flavor: Flavor)
    ensures
        flavor == flavor_of(*handle),
{
    if handle_is_pooled(handle) {
        Flavor::MultiThread
    } else {
        Flavor::CurrentThread
    }
}

} // verus!
