//! A bridge between the Tokio executor and a cooperatively scheduled host.
//!
//! The crate keeps a set-once registry of the executor handle in use, builds
//! executors in the two supported configurations, and carries the outcome of
//! a spawned task back to whoever asked for it.

pub mod coroutine;
pub mod executor;
pub mod registry;
pub mod task;

pub use coroutine::{into_coroutine, BridgeFuture, BridgeState, Coroutine, Delivery};
pub use executor::{BuildError, Flavor};
pub use registry::{
    get_handle, init, init_current_thread, init_current_thread_once, init_multi_thread,
    init_multi_thread_once, Registry,
};
pub use task::{complete, spawn, Cause, Failure, JoinOutcome};
