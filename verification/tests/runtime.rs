//! Tests for the context assembly, the guest call surface and the service
//! storage seam.

use wasm_bridge::future::PollLoad;
use wasm_bridge::runtime::{
    CallOutcome, CalleeContext, EffectContext, GuestCallEvent, GuestCallPoll, GuestEvent,
    GuestPoll, OperationContext, QueryContext, RuntimeError, SessionParam, Store, WasmApplication,
    WasmExecutionError,
};
use wasm_bridge::service::state_bytes_or_default;
use wasm_bridge::slot::FatalError;
use wasm_bridge::store::StateStore;

#[test]
fn malformed_bytecode_fails_assembly() {
    let application = WasmApplication::new(b"not wasm".to_vec());
    let result = application.prepare_runtime(
        StateStore::new(Vec::new()),
        Err("invalid magic number".to_string()),
        Ok(()),
        Ok(()),
    );
    assert_eq!(
        result.err().expect("assembly must fail"),
        WasmExecutionError::LoadModule("invalid magic number".to_string())
    );
}

#[test]
fn failing_setup_steps_are_fatal_in_order() {
    let application = WasmApplication::new(Vec::new());
    let result = application.prepare_runtime(
        StateStore::new(Vec::new()),
        Err("bad module".to_string()),
        Err("missing import".to_string()),
        Ok(()),
    );
    assert_eq!(
        result.err().unwrap(),
        WasmExecutionError::LoadModule("bad module".to_string())
    );

    let result = application.prepare_runtime(
        StateStore::new(Vec::new()),
        Ok(()),
        Err("missing import".to_string()),
        Ok(()),
    );
    assert_eq!(
        result.err().unwrap(),
        WasmExecutionError::Instantiate("missing import".to_string())
    );

    let result = application.prepare_runtime(
        StateStore::new(Vec::new()),
        Ok(()),
        Ok(()),
        Err("export wiring failed".to_string()),
    );
    assert_eq!(
        result.err().unwrap(),
        WasmExecutionError::Setup("export wiring failed".to_string())
    );
}

#[test]
fn assembled_context_serves_storage_calls() {
    let application = WasmApplication::new(b"\0asm".to_vec());
    let mut context = application
        .prepare_runtime(StateStore::new(b"genesis".to_vec()), Ok(()), Ok(()), Ok(()))
        .expect("assembly must succeed");

    context.system_api.install_wake_context(8);
    let mut future = context.system_api.load_new().unwrap();
    assert_eq!(context.system_api.load_poll(&mut future), Ok(PollLoad::Pending));
    assert_eq!(
        context.system_api.load_poll(&mut future),
        Ok(PollLoad::Ready(Ok(b"genesis".to_vec())))
    );
}

#[test]
fn cancelled_context_leaves_slot_empty() {
    let application = WasmApplication::new(b"\0asm".to_vec());
    let mut context = application
        .prepare_runtime(StateStore::new(b"genesis".to_vec()), Ok(()), Ok(()), Ok(()))
        .expect("assembly must succeed");

    // Mid-flight: the lock operation ran once but its future never reached
    // ready.
    context.system_api.install_wake_context(9);
    let mut future = context.system_api.load_and_lock_new().unwrap();
    assert_eq!(
        context.system_api.load_and_lock_poll(&mut future),
        Ok(PollLoad::Pending)
    );
    let mut unstarted = context.system_api.load_new().unwrap();

    let (mut api, storage) = context.finish();
    let storage = storage.expect("the capability must come back");
    assert_eq!(storage.state_bytes(), b"genesis".to_vec());
    assert!(storage.is_locked());

    assert_eq!(api.load_new().unwrap_err(), FatalError::StorageInvalidated);
    assert_eq!(
        api.load_poll(&mut unstarted).unwrap_err(),
        FatalError::StorageInvalidated
    );
}

#[test]
fn guest_operation_follows_two_phase_protocol() {
    let application = WasmApplication::new(Vec::new());
    let context = application
        .prepare_runtime(StateStore::new(Vec::new()), Ok(()), Ok(()), Ok(()))
        .expect("assembly must succeed");
    let mut store = Store::new();

    let mut future = context
        .application
        .execute_operation_new(&mut store, OperationContext(1), b"op", Ok(()))
        .expect("launch must succeed");
    assert_eq!(
        context
            .application
            .execute_operation_poll(&mut store, &mut future, GuestEvent::Progress),
        Ok(GuestPoll::Pending)
    );
    assert_eq!(
        context.application.execute_operation_poll(
            &mut store,
            &mut future,
            GuestEvent::Finished(Ok(b"done".to_vec()))
        ),
        Ok(GuestPoll::Ready(Ok(b"done".to_vec())))
    );
}

#[test]
fn guest_trap_surfaces_as_boundary_error() {
    let application = WasmApplication::new(Vec::new());
    let context = application
        .prepare_runtime(StateStore::new(Vec::new()), Ok(()), Ok(()), Ok(()))
        .expect("assembly must succeed");
    let mut store = Store::new();

    let mut future = context
        .application
        .execute_effect_new(&mut store, EffectContext(2), b"effect", Ok(()))
        .unwrap();
    assert_eq!(
        context.application.execute_effect_poll(
            &mut store,
            &mut future,
            GuestEvent::Trapped("out of fuel".to_string())
        ),
        Err(RuntimeError { message: "out of fuel".to_string() })
    );
}

#[test]
fn failed_launch_returns_the_boundary_error() {
    let application = WasmApplication::new(Vec::new());
    let context = application
        .prepare_runtime(StateStore::new(Vec::new()), Ok(()), Ok(()), Ok(()))
        .expect("assembly must succeed");
    let mut store = Store::new();

    let result = context.application.query_application_new(
        &mut store,
        QueryContext(3),
        b"query",
        Err(RuntimeError { message: "signature mismatch".to_string() }),
    );
    assert_eq!(
        result.unwrap_err(),
        RuntimeError { message: "signature mismatch".to_string() }
    );
}

#[test]
fn call_results_carry_created_sessions() {
    let application = WasmApplication::new(Vec::new());
    let context = application
        .prepare_runtime(StateStore::new(Vec::new()), Ok(()), Ok(()), Ok(()))
        .expect("assembly must succeed");
    let mut store = Store::new();

    let mut call = context
        .application
        .call_application_new(&mut store, CalleeContext(4), b"arg", &[7, 8], Ok(()))
        .unwrap();
    assert_eq!(
        context
            .application
            .call_application_poll(&mut store, &mut call, GuestCallEvent::Progress),
        Ok(GuestCallPoll::Pending)
    );
    let outcome = CallOutcome { value: b"value".to_vec(), sessions: vec![9, 10] };
    assert_eq!(
        context.application.call_application_poll(
            &mut store,
            &mut call,
            GuestCallEvent::Finished(Ok(CallOutcome {
                value: b"value".to_vec(),
                sessions: vec![9, 10],
            }))
        ),
        Ok(GuestCallPoll::Ready(Ok(outcome)))
    );

    let session = SessionParam { id: 9, data: b"session".to_vec() };
    let mut call = context
        .application
        .call_session_new(&mut store, CalleeContext(5), session, b"arg", &[9], Ok(()))
        .unwrap();
    assert_eq!(
        context.application.call_session_poll(
            &mut store,
            &mut call,
            GuestCallEvent::Finished(Err("rejected".to_string()))
        ),
        Ok(GuestCallPoll::Ready(Err("rejected".to_string())))
    );
}

#[test]
fn query_state_starts_from_stored_or_default() {
    assert_eq!(
        state_bytes_or_default(Some(b"stored".to_vec()), b"default".to_vec()),
        b"stored".to_vec()
    );
    assert_eq!(
        state_bytes_or_default(None, b"default".to_vec()),
        b"default".to_vec()
    );
}
