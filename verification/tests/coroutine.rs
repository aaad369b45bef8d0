use std::sync::atomic::{AtomicBool, Ordering};
use std::sync::Arc;
use std::time::Duration;

use tokio_bridge::coroutine::{into_coroutine, BridgeFuture, BridgeState, Coroutine, Delivery};
use tokio_bridge::registry::{init_multi_thread, Registry};
use tokio_bridge::task::{complete, Cause, Failure};

/// Waits on the calling thread for the task of `coroutine` and runs its
/// completion through the placeholder.
fn wait<T, E>(coroutine: Coroutine<T, E>) -> (BridgeState, Delivery<T, E>) {
    let Coroutine { mut future, task } = coroutine;
    let delivery = future.settle(complete(futures::executor::block_on(task)));
    (future.state(), delivery)
}

#[test]
fn new_future_is_pending() {
    assert_eq!(BridgeFuture::new().state(), BridgeState::Pending);
}

#[test]
fn settle_resolves_with_the_value() {
    let mut future = BridgeFuture::new();
    let delivery: Delivery<u32, String> = future.settle(Ok(7));
    assert_eq!(delivery, Delivery::Resolve(7));
    assert_eq!(future.state(), BridgeState::Resolved);
}

#[test]
fn settle_rejects_with_the_failure() {
    let mut future = BridgeFuture::new();
    let delivery: Delivery<u32, String> =
        future.settle(Err(Failure::Application(String::from("boom"))));
    assert_eq!(delivery, Delivery::Reject(Failure::Application(String::from("boom"))));
    assert_eq!(future.state(), BridgeState::Rejected(Cause::Application));

    let mut future = BridgeFuture::new();
    let delivery: Delivery<u32, String> = future.settle(Err(Failure::Panicked));
    assert_eq!(delivery, Delivery::Reject(Failure::Panicked));
    assert_eq!(future.state(), BridgeState::Rejected(Cause::Panicked));

    let mut future = BridgeFuture::new();
    let delivery: Delivery<u32, String> = future.settle(Err(Failure::Cancelled));
    assert_eq!(delivery, Delivery::Reject(Failure::Cancelled));
    assert_eq!(future.state(), BridgeState::Rejected(Cause::Cancelled));
}

#[test]
fn settle_delivers_only_once() {
    let mut future = BridgeFuture::new();
    let first: Delivery<u32, String> = future.settle(Ok(7));
    assert_eq!(first, Delivery::Resolve(7));
    let second: Delivery<u32, String> = future.settle(Ok(8));
    assert_eq!(second, Delivery::Discard);
    let third: Delivery<u32, String> = future.settle(Err(Failure::Panicked));
    assert_eq!(third, Delivery::Discard);
    future.detach();
    assert_eq!(future.state(), BridgeState::Resolved);
}

#[test]
fn detached_future_drops_the_completion() {
    let mut future = BridgeFuture::new();
    future.detach();
    assert_eq!(future.state(), BridgeState::Detached);
    let delivery: Delivery<u32, String> = future.settle(Ok(7));
    assert_eq!(delivery, Delivery::Discard);
    assert_eq!(future.state(), BridgeState::Detached);
}

#[test]
fn conclude_delivers_to_a_host_that_listens() {
    let mut future = BridgeFuture::new();
    let delivery: Delivery<u32, String> = future.conclude(Some(false), Some(false), Ok(7));
    assert_eq!(delivery, Delivery::Resolve(7));
    assert_eq!(future.state(), BridgeState::Resolved);

    let mut future = BridgeFuture::new();
    let delivery: Delivery<u32, String> =
        future.conclude(Some(false), Some(false), Err(Failure::Cancelled));
    assert_eq!(delivery, Delivery::Reject(Failure::Cancelled));
    assert_eq!(future.state(), BridgeState::Rejected(Cause::Cancelled));
}

#[test]
fn conclude_drops_what_nobody_listens_for() {
    let answers = [
        (Some(true), Some(false)),
        (Some(false), Some(true)),
        (Some(true), Some(true)),
        (None, Some(false)),
        (Some(false), None),
        (None, None),
    ];
    for (cancelled, closed) in answers {
        let mut future = BridgeFuture::new();
        let delivery: Delivery<u32, String> = future.conclude(cancelled, closed, Ok(7));
        assert_eq!(delivery, Delivery::Discard);
        assert_eq!(future.state(), BridgeState::Detached);
    }
}

#[test]
fn conclude_leaves_a_settled_future_alone() {
    let mut future = BridgeFuture::new();
    let first: Delivery<u32, String> = future.settle(Ok(7));
    assert_eq!(first, Delivery::Resolve(7));
    let second: Delivery<u32, String> = future.conclude(Some(true), None, Ok(8));
    assert_eq!(second, Delivery::Discard);
    assert_eq!(future.state(), BridgeState::Resolved);
}

#[test]
fn failure_names_its_cause() {
    assert_eq!(Failure::Application(3u8).cause(), Cause::Application);
    assert_eq!(Failure::<u8>::Panicked.cause(), Cause::Panicked);
    assert_eq!(Failure::<u8>::Cancelled.cause(), Cause::Cancelled);
}

#[test]
fn into_coroutine_returns_a_pending_future_at_once() {
    let mut registry = Registry::new();
    let _runtime = init_multi_thread(&mut registry, 2).unwrap();
    let (release, gate) = std::sync::mpsc::channel::<u32>();
    let coroutine =
        into_coroutine(&registry, async move { Ok::<u32, String>(gate.recv().unwrap() * 2) });
    assert_eq!(coroutine.future.state(), BridgeState::Pending);
    assert!(!coroutine.task.is_finished());
    release.send(21).unwrap();
    assert_eq!(wait(coroutine), (BridgeState::Resolved, Delivery::Resolve(42)));
}

#[test]
fn coroutine_settles_as_the_future_would() {
    let mut registry = Registry::new();
    let _runtime = init_multi_thread(&mut registry, 2).unwrap();
    let reported = into_coroutine(&registry, async { Err::<u32, String>(String::from("boom")) });
    assert_eq!(
        wait(reported),
        (
            BridgeState::Rejected(Cause::Application),
            Delivery::Reject(Failure::Application(String::from("boom")))
        )
    );
    let panicking = into_coroutine(&registry, async {
        if true {
            panic!("boom");
        }
        Ok::<u32, String>(1)
    });
    assert_eq!(
        wait(panicking),
        (BridgeState::Rejected(Cause::Panicked), Delivery::Reject(Failure::Panicked))
    );
}

#[test]
fn cancelled_coroutine_still_runs_the_task() {
    let mut registry = Registry::new();
    let _runtime = init_multi_thread(&mut registry, 2).unwrap();
    let ran = Arc::new(AtomicBool::new(false));
    let flag = ran.clone();
    let mut coroutine = into_coroutine(&registry, async move {
        tokio::time::sleep(Duration::from_millis(20)).await;
        flag.store(true, Ordering::SeqCst);
        Ok::<u32, String>(7)
    });
    coroutine.cancel();
    assert_eq!(coroutine.future.state(), BridgeState::Detached);
    assert!(!ran.load(Ordering::SeqCst));
    assert_eq!(wait(coroutine), (BridgeState::Detached, Delivery::Discard));
    assert!(ran.load(Ordering::SeqCst));
}
