//! The set-once registry of the executor handle in use.

use once_cell::sync::OnceCell;
use tokio::runtime::{Handle, Runtime};
use vstd::prelude::*;

use crate::executor::{
    build, built_as, handle_of, runtime_handle, workers_fit, BuildError, Flavor,
};

verus! {

/// The cell of the `once_cell` crate that can be written to only once.
#[verifier::external_type_specification]
#[verifier::external_body]
#[verifier::reject_recursive_types(T)]
pub struct ExOnceCell<T>(once_cell::sync::OnceCell<T>);

/// What a cell of handles holds: nothing, or the one handle it was set to.
pub uninterp spec fn cell_contents(cell: OnceCell<Handle>) -> Option<Handle>;

/// `OnceCell::new`: the new cell is empty.
#[verifier::external_body]
fn cell_new() -> (cell: OnceCell<Handle>)
    ensures
        cell_contents(cell) is None,
{
    OnceCell::new()
}

/// `OnceCell::get`: a reference to the value the cell holds, if it holds one.
#[verifier::external_body]
fn cell_get(cell: &OnceCell<Handle>) -> (found: Option<&Handle>)
    ensures
        match found {
            Some(handle) => cell_contents(*cell) == Some(*handle),
            None => cell_contents(*cell) is None,
        },
{
    cell.get()
}

/// `OnceCell::set`: an empty cell takes the value and the call returns `Ok`;
/// a full cell stays as it is and the value comes back in `Err`.
#[verifier::external_body]
fn cell_set(cell: &mut OnceCell<Handle>, value: Handle) -> (outcome: Result<(), Handle>)
    ensures
        cell_contents(*old(cell)) is None ==> outcome is Ok && cell_contents(*final(cell)) == Some(value),
        cell_contents(*old(cell)) is Some ==> outcome is Err && outcome->Err_0 == value
            && cell_contents(*final(cell)) == cell_contents(*old(cell)),
{
    cell.set(value)
}

/// Holds at most one executor handle, and never a second one after the first.
pub struct Registry {
    cell: OnceCell<Handle>,
}

impl View for Registry {
    type V = Option<Handle>;

    /// The installed handle, if there is one.
    closed spec fn view(&self) -> Option<Handle> {
        cell_contents(self.cell)
    }
}

impl Registry {
    /// An empty registry.
    pub fn new() -> (registry: Registry)
        ensures
            registry@ is None,
    {
        Registry { cell: cell_new() }
    }

    /// Whether a handle has been installed.
    pub fn is_installed(&self) -> (installed: bool)
        ensures
            installed == (self@ is Some),
    {
        cell_get(&self.cell).is_some()
    }

    /// The installed handle, or `None` before any was installed.
    pub fn handle(&self) -> (found: Option<&Handle>)
        ensures
            match found {
                Some(handle) => self@ == Some(*handle),
                None => self@ is None,
            },
    {
        cell_get(&self.cell)
    }

    /// Installs `handle` if the registry is empty. A registry that holds a
    /// handle refuses: it keeps what it holds, and `handle` comes back in
    /// `Err`.
    pub fn install(&mut self, handle: Handle) -> (outcome: Result<(), Handle>)
        ensures
            final(self)@ == after_install(old(self)@, handle),
            outcome == install_outcome(old(self)@, handle),
    {
        let outcome = cell_set(&mut self.cell, handle);
        assert(outcome is Ok ==> outcome->Ok_0 == ());
        outcome
    }

    /// Installs what `factory` makes, if the registry is empty, and says
    /// whether it did. A registry that holds a handle keeps it, and `factory`
    /// is not called.
    pub fn install_if_absent<F: FnOnce() -> Handle>(&mut self, factory: F) -> (performed: bool)
        requires
            factory.requires(()),
        ensures
            performed == (old(self)@ is None),
            !performed ==> final(self)@ == old(self)@,
            performed ==> final(self)@ is Some && factory.ensures((), final(self)@->Some_0),
    {
        if self.is_installed() {
            false
        } else {
            let _ = self.install(factory());
            true
        }
    }
}

/// What a registry holds after an attempt to install `handle`: the handle
/// it held before, or else `handle`.
pub open spec fn after_install(before: Option<Handle>, handle: Handle) -> Option<Handle> {
    match before {
        Some(first) => Some(first),
        None => Some(handle),
    }
}

/// What an attempt to install `handle` answers: `Ok` from an empty registry,
/// and from one that holds a handle a refusal that hands `handle` back.
pub open spec fn install_outcome(before: Option<Handle>, handle: Handle) -> Result<(), Handle> {
    match before {
        Some(_) => Err(handle),
        None => Ok(()),
    }
}

/// Installs `runtime` as the handle in use. A registry that holds a handle
/// is not admitted: `Registry::install` is the form that refuses it.
pub fn init(registry: &mut Registry, runtime: Handle)
    requires
        old(registry)@ is None,
    ensures
        final(registry)@ == Some(runtime),
{
    let _ = registry.install(runtime);
}

/// The handle in use.
pub fn get_handle(registry: &Registry) -> (handle: &Handle)
    requires
        registry@ is Some,
    ensures
        registry@ == Some(*handle),
{
    match registry.handle() {
        Some(handle) => handle,
        None => vstd::pervasive::unreached(),
    }
}

/// How a registry that was empty stands after an attempt to build an
/// executor of `flavor` and to install its handle: it holds the handle of the
/// executor that was built, or nothing if none could be built.
pub open spec fn installed_from(
    after: Option<Handle>,
    built: Result<Runtime, BuildError>,
    flavor: Flavor,
) -> bool {
    &&& built_as(built, flavor)
    &&& match built {
        Ok(runtime) => after == Some(handle_of(runtime)),
        Err(_) => after is None,
    }
}

/// How a registry stands after a call that installs only where nothing is
/// installed yet. A registry that held a handle is unchanged and nothing was
/// built; an empty one stands as `installed_from` says, and the executor that
/// was built is handed out.
pub open spec fn installed_once(
    before: Option<Handle>,
    after: Option<Handle>,
    started: Result<Option<Runtime>, BuildError>,
    flavor: Flavor,
) -> bool {
    match before {
        Some(_) => after == before && started == Ok::<Option<Runtime>, BuildError>(None),
        None => match started {
            Ok(Some(runtime)) => installed_from(after, Ok(runtime), flavor),
            Ok(None) => false,
            Err(e) => installed_from(after, Err(e), flavor),
        },
    }
}

fn init_with(registry: &mut Registry, flavor: Flavor, workers: usize) -> (built: Result<
    Runtime,
    BuildError,
>)
    requires
        old(registry)@ is None,
        flavor == Flavor::MultiThread ==> workers_fit(workers),
    ensures
        installed_from(final(registry)@, built, flavor),
{
    match build(flavor, workers) {
        Ok(runtime) => {
            init(registry, runtime_handle(&runtime));
            Ok(runtime)
        },
        Err(e) => Err(e),
    }
}

fn init_once_with(registry: &mut Registry, flavor: Flavor, workers: usize) -> (started: Result<
    Option<Runtime>,
    BuildError,
>)
    requires
        flavor == Flavor::MultiThread ==> workers_fit(workers),
    ensures
        installed_once(old(registry)@, final(registry)@, started, flavor),
{
    if registry.is_installed() {
        Ok(None)
    } else {
        match init_with(registry, flavor, workers) {
            Ok(runtime) => Ok(Some(runtime)),
            Err(e) => Err(e),
        }
    }
}

/// Builds a single-threaded executor and installs its handle. The executor
/// is handed to the caller, who has to drive it: it runs tasks only while a
/// thread blocks on it. A registry that holds a handle is not admitted.
pub fn init_current_thread(registry: &mut Registry) -> (built: Result<Runtime, BuildError>)
    requires
        old(registry)@ is None,
    ensures
        installed_from(final(registry)@, built, Flavor::CurrentThread),
{
    init_with(registry, Flavor::CurrentThread, 1)
}

/// Builds an executor with a pool of `workers` worker threads and installs
/// its handle. The executor is handed to the caller, who keeps it for as long
/// as tasks are to run. A registry that holds a handle is not admitted.
pub fn init_multi_thread(registry: &mut Registry, workers: usize) -> (built: Result<
    Runtime,
    BuildError,
>)
    requires
        old(registry)@ is None,
        workers_fit(workers),
    ensures
        installed_from(final(registry)@, built, Flavor::MultiThread),
{
    init_with(registry, Flavor::MultiThread, workers)
}

/// Makes sure that a handle is installed, building an executor with a pool
/// of `workers` worker threads if none is. `Ok(Some(..))` says that this call
/// built and installed it.
pub fn init_multi_thread_once(registry: &mut Registry, workers: usize) -> (started: Result<
    Option<Runtime>,
    BuildError,
>)
    requires
        workers_fit(workers),
    ensures
        installed_once(old(registry)@, final(registry)@, started, Flavor::MultiThread),
{
    init_once_with(registry, Flavor::MultiThread, workers)
}

/// Makes sure that a handle is installed, building a single-threaded executor
/// if none is. `Ok(Some(..))` says that this call built and installed it, and
/// only then is there an executor for the caller to drive.
pub fn init_current_thread_once(registry: &mut Registry) -> (started: Result<
    Option<Runtime>,
    BuildError,
>)
    ensures
        installed_once(old(registry)@, final(registry)@, started, Flavor::CurrentThread),
{
    init_once_with(registry, Flavor::CurrentThread, 1)
}

/// Installing twice never replaces the first handle. After a first install
/// into an empty registry, a second attempt to install is refused and hands
/// the offered handle back, and a call that installs only where nothing is
/// installed builds nothing; either way the registry holds the first handle.
pub proof fn lemma_second_install_changes_nothing(
    first: Handle,
    second: Handle,
    after: Option<Handle>,
    started: Result<Option<Runtime>, BuildError>,
    flavor: Flavor,
)
    ensures
        after_install(None, first) == Some(first),
        install_outcome(after_install(None, first), second) == Err::<(), Handle>(second),
        after_install(after_install(None, first), second) == Some(first),
        installed_once(after_install(None, first), after, started, flavor) ==> after == Some(first)
            && started == Ok::<Option<Runtime>, BuildError>(None),
{
}

/// What a registry holds after attempts to install each of `attempts`, in
/// order.
pub open spec fn after_installs(before: Option<Handle>, attempts: Seq<Handle>) -> Option<Handle>
    decreases attempts.len(),
{
    if attempts.len() == 0 {
        before
    } else {
        after_installs(after_install(before, attempts[0]), attempts.drop_first())
    }
}

/// A registry that holds a handle holds that handle ever after: no attempt
/// to install another one replaces it.
pub proof fn lemma_installed_handle_stays(first: Handle, attempts: Seq<Handle>)
    ensures
        after_installs(Some(first), attempts) == Some(first),
    decreases attempts.len(),
{
    if attempts.len() > 0 {
        lemma_installed_handle_stays(first, attempts.drop_first());
    }
}

/// An empty registry holds nothing until the first attempt to install, and
/// from then on the handle of that first attempt.
pub proof fn lemma_first_install_wins(attempts: Seq<Handle>)
    ensures
        after_installs(None, attempts) == if attempts.len() == 0 {
            None
        } else {
            Some(attempts[0])
        },
{
    if attempts.len() > 0 {
        lemma_installed_handle_stays(attempts[0], attempts.drop_first());
    }
}

} // verus!
