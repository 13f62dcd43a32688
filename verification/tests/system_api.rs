//! Tests for the system API, the future bridge and the storage guard.

use wasm_bridge::forwarder::ContextForwarder;
use wasm_bridge::future::PollLoad;
use wasm_bridge::slot::{FatalError, StorageSlot};
use wasm_bridge::store::{StateStore, StoreError};
use wasm_bridge::system_api::SystemApi;

#[test]
fn round_trip_from_default_state() {
    let storage = StateStore::new(Vec::new());
    let (mut api, guard) = SystemApi::new(ContextForwarder::new(), storage);
    api.install_wake_context(1);

    let mut future = api.load_and_lock_new().expect("starting load_and_lock must succeed");
    assert_eq!(api.load_and_lock_poll(&mut future), Ok(PollLoad::Pending));
    assert_eq!(
        api.load_and_lock_poll(&mut future),
        Ok(PollLoad::Ready(Ok(Vec::new())))
    );

    assert_eq!(api.store_and_unlock(b"hello"), Ok(true));

    let mut future = api.load_new().expect("starting load must succeed");
    assert_eq!(api.load_poll(&mut future), Ok(PollLoad::Pending));
    assert_eq!(
        api.load_poll(&mut future),
        Ok(PollLoad::Ready(Ok(b"hello".to_vec())))
    );

    let returned = guard.release(&mut api).expect("the capability must come back");
    assert_eq!(returned.state_bytes(), b"hello".to_vec());
    assert!(!returned.is_locked());
}

#[test]
fn store_then_load_observes_write() {
    let storage = StateStore::new(b"before".to_vec());
    let (mut api, _guard) = SystemApi::new(ContextForwarder::new(), storage);
    api.install_wake_context(4);

    let mut lock = api.load_and_lock_new().unwrap();
    assert_eq!(api.load_and_lock_poll(&mut lock), Ok(PollLoad::Pending));
    assert_eq!(
        api.load_and_lock_poll(&mut lock),
        Ok(PollLoad::Ready(Ok(b"before".to_vec())))
    );

    assert_eq!(api.store_and_unlock(b"after"), Ok(true));

    let mut load = api.load_new().unwrap();
    assert_eq!(api.load_poll(&mut load), Ok(PollLoad::Pending));
    assert_eq!(api.load_poll(&mut load), Ok(PollLoad::Ready(Ok(b"after".to_vec()))));
}

#[test]
fn store_without_lock_reports_failure() {
    let storage = StateStore::new(b"kept".to_vec());
    let (mut api, _guard) = SystemApi::new(ContextForwarder::new(), storage);
    api.install_wake_context(2);

    assert_eq!(api.store_and_unlock(b"ignored"), Ok(false));

    let mut load = api.load_new().unwrap();
    assert_eq!(api.load_poll(&mut load), Ok(PollLoad::Pending));
    assert_eq!(api.load_poll(&mut load), Ok(PollLoad::Ready(Ok(b"kept".to_vec()))));
}

#[test]
fn locking_twice_renders_error_text() {
    let storage = StateStore::new(b"state".to_vec());
    let (mut api, _guard) = SystemApi::new(ContextForwarder::new(), storage);
    api.install_wake_context(3);

    let mut first = api.load_and_lock_new().unwrap();
    assert_eq!(api.load_and_lock_poll(&mut first), Ok(PollLoad::Pending));
    assert_eq!(
        api.load_and_lock_poll(&mut first),
        Ok(PollLoad::Ready(Ok(b"state".to_vec())))
    );

    let mut second = api.load_and_lock_new().unwrap();
    assert_eq!(api.load_and_lock_poll(&mut second), Ok(PollLoad::Pending));
    assert_eq!(
        api.load_and_lock_poll(&mut second),
        Ok(PollLoad::Ready(Err(
            "the application state is already locked".to_string()
        )))
    );
}

#[test]
fn poll_after_completion_repeats_outcome() {
    let storage = StateStore::new(b"cached".to_vec());
    let (mut api, _guard) = SystemApi::new(ContextForwarder::new(), storage);
    api.install_wake_context(5);

    let mut future = api.load_new().unwrap();
    assert_eq!(api.load_poll(&mut future), Ok(PollLoad::Pending));
    let ready = api.load_poll(&mut future).unwrap();
    assert_eq!(ready, PollLoad::Ready(Ok(b"cached".to_vec())));
    assert_eq!(api.load_poll(&mut future), Ok(ready));
    assert_eq!(
        api.load_poll(&mut future),
        Ok(PollLoad::Ready(Ok(b"cached".to_vec())))
    );
}

#[test]
fn released_guard_makes_every_access_fail() {
    let storage = StateStore::new(b"gone".to_vec());
    let (mut api, guard) = SystemApi::new(ContextForwarder::new(), storage);
    api.install_wake_context(6);

    let mut outstanding = api.load_new().unwrap();

    let returned = guard.release(&mut api);
    assert_eq!(returned.map(|s| s.state_bytes()), Some(b"gone".to_vec()));

    assert_eq!(api.load_new().unwrap_err(), FatalError::StorageInvalidated);
    assert_eq!(
        api.load_and_lock_new().unwrap_err(),
        FatalError::StorageInvalidated
    );
    assert_eq!(
        api.store_and_unlock(b"new").unwrap_err(),
        FatalError::StorageInvalidated
    );
    assert_eq!(
        api.load_poll(&mut outstanding).unwrap_err(),
        FatalError::StorageInvalidated
    );
}

#[test]
fn overlapping_slot_access_is_fatal() {
    let mut slot = StorageSlot::new(StateStore::new(b"one".to_vec()));
    let held = slot.try_acquire().expect("first access must succeed");
    assert_eq!(slot.try_acquire().unwrap_err(), FatalError::ConcurrentAccess);
    assert_eq!(slot.try_acquire().unwrap_err(), FatalError::ConcurrentAccess);
    slot.release(held);
    assert!(slot.try_acquire().is_ok());
}

#[test]
fn vacated_slot_refuses_access() {
    let mut slot = StorageSlot::new(StateStore::new(b"two".to_vec()));
    let returned = slot.vacate().expect("the capability must come back");
    assert_eq!(returned.state_bytes(), b"two".to_vec());
    assert_eq!(
        slot.try_acquire().unwrap_err(),
        FatalError::StorageInvalidated
    );
    assert!(slot.vacate().is_none());
}

#[test]
fn forwarder_holds_one_wake_context_at_a_time() {
    let mut forwarder = ContextForwarder::new();
    assert_eq!(forwarder.current_context(), None);
    forwarder.install(3);
    assert_eq!(forwarder.current_context(), Some(3));
    forwarder.install(4);
    assert_eq!(forwarder.current_context(), Some(4));
    forwarder.remove();
    assert_eq!(forwarder.current_context(), None);
    assert_eq!(ContextForwarder::default().current_context(), None);
}

#[test]
fn storage_capability_guards_the_write_intent() {
    let mut store = StateStore::new(b"blob".to_vec());
    assert_eq!(store.try_read_my_state(), Ok(b"blob".to_vec()));

    assert_eq!(store.try_read_and_lock_my_state(), Ok(b"blob".to_vec()));
    assert_eq!(
        store.try_read_and_lock_my_state(),
        Err(StoreError::AlreadyLocked)
    );

    assert_eq!(store.save_and_unlock_my_state(b"next".to_vec()), Ok(()));
    assert_eq!(
        store.save_and_unlock_my_state(b"again".to_vec()),
        Err(StoreError::NotLocked)
    );
    assert_eq!(store.state_bytes(), b"next".to_vec());
    assert!(!store.is_locked());
}

#[test]
fn store_errors_render_to_diagnostic_text() {
    assert_eq!(
        StoreError::AlreadyLocked.render(),
        "the application state is already locked".to_string()
    );
    assert_eq!(
        StoreError::NotLocked.render(),
        "the application state is not locked".to_string()
    );
}
