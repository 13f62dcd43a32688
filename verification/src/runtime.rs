//! Runtime abstraction, context assembly and the guest call surface.
//!
//! One execution context is assembled per guest invocation: the sandbox
//! engine compiles the bytecode artifact into a fresh execution session,
//! the system API and its storage guard are wired into the guest's import
//! table, and the module is instantiated.  The engine's own work — compiling,
//! instantiating, running guest code — happens outside this crate; what it
//! reports enters the verified logic as plain events, and every decision the
//! bridge takes on those events is pinned down here: which failures are fatal
//! setup errors, how the two-phase new/poll protocol advances, and what the
//! driver is told at each step.

use crate::forwarder::ContextForwarder;
use crate::slot::SlotModel;
use crate::store::StateStore;
use crate::system_api::{ApiModel, StorageGuard, SystemApi};
use vstd::prelude::*;

verus! {

/// A boundary error: the sandboxing engine reports a trap, a resource
/// violation or a signature mismatch while a guest function is executing.
/// Non-retryable for the invocation; the diagnostic travels as opaque text.
#[derive(Debug, PartialEq, Eq)]
pub struct RuntimeError {
    pub message: String,
}

/// A capability set fixing, for one sandboxing engine, the guest-application
/// proxy type, the execution-session type, the storage-guard type and the
/// boundary error type.  The rest of the bridge is written against this seam
/// only, so a new engine can be plugged in without touching the bridge logic.
pub trait Runtime {
    /// The host's typed proxy for the guest's exported entry points.
    type Application;

    /// The execution store / session the guest runs in.
    type Store;

    /// The guard that ends the borrow of the storage capability.
    type StorageGuard;

    /// The error raised by guest-boundary calls.
    type Error;
}

/// The sandboxing backend modeled by this crate.
pub struct Wasmer {
    _private: (),
}

impl Runtime for Wasmer {
    type Application = Application;

    type Store = Store;

    type StorageGuard = StorageGuard;

    type Error = RuntimeError;
}

/// A fresh execution store / session.  The engine's own session state is
/// opaque to the bridge; the session exists so that every guest call is tied
/// to the invocation it belongs to.
pub struct Store {
    _private: (),
}

impl Store {
    /// A fresh session for one invocation.
    pub fn new() -> (store: Self) {
        Store { _private: () }
    }
}

impl Default for Store {
    /// Same as [`Store::new`].
    fn default() -> Self {
        Store::new()
    }
}

/// The opaque call context an operation executes under.
#[derive(Clone, Copy, PartialEq, Eq, Structural, Debug)]
pub struct OperationContext(pub u64);

/// The opaque call context an effect executes under.
#[derive(Clone, Copy, PartialEq, Eq, Structural, Debug)]
pub struct EffectContext(pub u64);

/// The opaque call context a cross-application call executes under.
#[derive(Clone, Copy, PartialEq, Eq, Structural, Debug)]
pub struct CalleeContext(pub u64);

/// The opaque call context a query executes under.
#[derive(Clone, Copy, PartialEq, Eq, Structural, Debug)]
pub struct QueryContext(pub u64);

/// An open session forwarded into a cross-application call.
pub type SessionId = u64;

/// The session a `call_session` call is addressed to: its identifier and its
/// current payload.
#[derive(PartialEq, Eq, Debug)]
pub struct SessionParam {
    pub id: SessionId,
    pub data: Vec<u8>,
}

/// Which guest export a future belongs to.
#[derive(Clone, Copy, PartialEq, Eq, Structural, Debug)]
pub enum GuestCallKind {
    ExecuteOperation,
    ExecuteEffect,
    CallApplication,
    CallSession,
    QueryApplication,
}

/// An opaque handle for one in-progress guest computation, following the
/// two-phase new/poll convention.  A conforming caller stops polling once the
/// future has been observed terminal.
#[derive(Debug)]
pub struct GuestFuture {
    kind: GuestCallKind,
    done: bool,
}

impl GuestFuture {
    /// Which guest export this future belongs to.
    pub closed spec fn kind(&self) -> GuestCallKind {
        self.kind
    }

    /// Whether the future has been observed terminal — ready, or failed at
    /// the boundary.
    pub closed spec fn is_done(&self) -> bool {
        self.done
    }
}

/// What the engine reports when the host drives a plain guest export —
/// an operation, an effect or a query — one step further.
#[derive(PartialEq, Eq, Debug)]
pub enum GuestEvent {
    /// The guest computation has not finished yet; the driver must poll
    /// again after yielding.
    Progress,
    /// The guest computation finished with an application-level result:
    /// a payload, or a failure the application itself rendered to text.
    Finished(Result<Vec<u8>, String>),
    /// The boundary failed: the engine trapped with this diagnostic.
    Trapped(String),
}

/// What polling a plain guest export yields.
#[derive(PartialEq, Eq, Debug)]
pub enum GuestPoll {
    Pending,
    Ready(Result<Vec<u8>, String>),
}

/// The structured result of a cross-application or session call: the payload
/// plus the sessions the call created or forwarded onwards.
#[derive(PartialEq, Eq, Debug)]
pub struct CallOutcome {
    pub value: Vec<u8>,
    pub sessions: Vec<SessionId>,
}

/// What the engine reports when the host drives a cross-application or
/// session call one step further.
#[derive(PartialEq, Eq, Debug)]
pub enum GuestCallEvent {
    Progress,
    Finished(Result<CallOutcome, String>),
    Trapped(String),
}

/// What polling a cross-application or session call yields.
#[derive(PartialEq, Eq, Debug)]
pub enum GuestCallPoll {
    Pending,
    Ready(Result<CallOutcome, String>),
}

/// The host's typed proxy for the guest's exported entry points.  Each export
/// follows the two-phase convention: a `new` call that starts the guest
/// computation and returns an opaque future, and a `poll` call that advances
/// it.  The engine's reports arrive as events; the proxy's contracts fix how
/// each event is mapped onto the typed protocol.
pub struct Application {
    _private: (),
}

impl Application {
    /// The proxy handle produced when the module is instantiated.
    pub(crate) fn instantiated() -> Self {
        Application { _private: () }
    }

    /// Start executing an operation.  `launch` is the engine's report on
    /// starting the guest task: a boundary failure surfaces as the error, and
    /// otherwise the returned future is fresh.
    pub fn execute_operation_new(
        &self,
        _store: &mut Store,
        _context: OperationContext,
        _operation: &[u8],
        launch: Result<(), RuntimeError>,
    ) -> (r: Result<GuestFuture, RuntimeError>)
        ensures
            launch_contract(launch, GuestCallKind::ExecuteOperation, r),
    {
        start_guest(GuestCallKind::ExecuteOperation, launch)
    }

    /// Advance an `execute_operation` future once.
    pub fn execute_operation_poll(
        &self,
        _store: &mut Store,
        future: &mut GuestFuture,
        event: GuestEvent,
    ) -> (r: Result<GuestPoll, RuntimeError>)
        requires
            old(future).kind() == GuestCallKind::ExecuteOperation,
            !old(future).is_done(),
        ensures
            poll_contract(*old(future), event, *final(future), r),
    {
        poll_guest(future, event)
    }

    /// Start executing an effect.
    pub fn execute_effect_new(
        &self,
        _store: &mut Store,
        _context: EffectContext,
        _effect: &[u8],
        launch: Result<(), RuntimeError>,
    ) -> (r: Result<GuestFuture, RuntimeError>)
        ensures
            launch_contract(launch, GuestCallKind::ExecuteEffect, r),
    {
        start_guest(GuestCallKind::ExecuteEffect, launch)
    }

    /// Advance an `execute_effect` future once.
    pub fn execute_effect_poll(
        &self,
        _store: &mut Store,
        future: &mut GuestFuture,
        event: GuestEvent,
    ) -> (r: Result<GuestPoll, RuntimeError>)
        requires
            old(future).kind() == GuestCallKind::ExecuteEffect,
            !old(future).is_done(),
        ensures
            poll_contract(*old(future), event, *final(future), r),
    {
        poll_guest(future, event)
    }

    /// Start a call into another application, forwarding the given open
    /// sessions.
    pub fn call_application_new(
        &self,
        _store: &mut Store,
        _context: CalleeContext,
        _argument: &[u8],
        _forwarded_sessions: &[SessionId],
        launch: Result<(), RuntimeError>,
    ) -> (r: Result<GuestFuture, RuntimeError>)
        ensures
            launch_contract(launch, GuestCallKind::CallApplication, r),
    {
        start_guest(GuestCallKind::CallApplication, launch)
    }

    /// Advance a `call_application` future once.
    pub fn call_application_poll(
        &self,
        _store: &mut Store,
        future: &mut GuestFuture,
        event: GuestCallEvent,
    ) -> (r: Result<GuestCallPoll, RuntimeError>)
        requires
            old(future).kind() == GuestCallKind::CallApplication,
            !old(future).is_done(),
        ensures
            call_poll_contract(*old(future), event, *final(future), r),
    {
        poll_guest_call(future, event)
    }

    /// Start a call into a session of another application, forwarding the
    /// given open sessions.
    pub fn call_session_new(
        &self,
        _store: &mut Store,
        _context: CalleeContext,
        _session: SessionParam,
        _argument: &[u8],
        _forwarded_sessions: &[SessionId],
        launch: Result<(), RuntimeError>,
    ) -> (r: Result<GuestFuture, RuntimeError>)
        ensures
            launch_contract(launch, GuestCallKind::CallSession, r),
    {
        start_guest(GuestCallKind::CallSession, launch)
    }

    /// Advance a `call_session` future once.
    pub fn call_session_poll(
        &self,
        _store: &mut Store,
        future: &mut GuestFuture,
        event: GuestCallEvent,
    ) -> (r: Result<GuestCallPoll, RuntimeError>)
        requires
            old(future).kind() == GuestCallKind::CallSession,
            !old(future).is_done(),
        ensures
            call_poll_contract(*old(future), event, *final(future), r),
    {
        poll_guest_call(future, event)
    }

    /// Start a query of the application.
    pub fn query_application_new(
        &self,
        _store: &mut Store,
        _context: QueryContext,
        _argument: &[u8],
        launch: Result<(), RuntimeError>,
    ) -> (r: Result<GuestFuture, RuntimeError>)
        ensures
            launch_contract(launch, GuestCallKind::QueryApplication, r),
    {
        start_guest(GuestCallKind::QueryApplication, launch)
    }

    /// Advance a `query_application` future once.
    pub fn query_application_poll(
        &self,
        _store: &mut Store,
        future: &mut GuestFuture,
        event: GuestEvent,
    ) -> (r: Result<GuestPoll, RuntimeError>)
        requires
            old(future).kind() == GuestCallKind::QueryApplication,
            !old(future).is_done(),
        ensures
            poll_contract(*old(future), event, *final(future), r),
    {
        poll_guest(future, event)
    }
}

/// The contract of every `new` call of the guest surface: a boundary failure
/// at launch is surfaced as the error, otherwise the returned future is fresh
/// — it belongs to `kind` and has not been observed terminal.
pub open spec fn launch_contract(
    launch: Result<(), RuntimeError>,
    kind: GuestCallKind,
    r: Result<GuestFuture, RuntimeError>,
) -> bool {
    match launch {
        Ok(()) => r matches Ok(future) && future.kind() == kind && !future.is_done(),
        Err(e) => r matches Err(out) && out == e,
    }
}

/// The contract of the plain poll calls: progress maps to pending, a finished
/// computation is terminal with its application-level result, and a trap is
/// terminal with a boundary error carrying the diagnostic.  The future's kind
/// never changes, and it is terminal exactly when the event was.
pub open spec fn poll_contract(
    before: GuestFuture,
    event: GuestEvent,
    after: GuestFuture,
    r: Result<GuestPoll, RuntimeError>,
) -> bool {
    &&& after.kind() == before.kind()
    &&& match event {
        GuestEvent::Progress => r matches Ok(p) && p == GuestPoll::Pending && !after.is_done(),
        GuestEvent::Finished(outcome) => r matches Ok(p) && p == GuestPoll::Ready(outcome)
            && after.is_done(),
        GuestEvent::Trapped(message) => r matches Err(e) && e == (RuntimeError { message })
            && after.is_done(),
    }
}

/// The contract of the call/session poll calls, with the structured result.
pub open spec fn call_poll_contract(
    before: GuestFuture,
    event: GuestCallEvent,
    after: GuestFuture,
    r: Result<GuestCallPoll, RuntimeError>,
) -> bool {
    &&& after.kind() == before.kind()
    &&& match event {
        GuestCallEvent::Progress => r matches Ok(p) && p == GuestCallPoll::Pending
            && !after.is_done(),
        GuestCallEvent::Finished(outcome) => r matches Ok(p) && p == GuestCallPoll::Ready(outcome)
            && after.is_done(),
        GuestCallEvent::Trapped(message) => r matches Err(e) && e == (RuntimeError { message })
            && after.is_done(),
    }
}

/// Shared start path of the guest surface.
fn start_guest(kind: GuestCallKind, launch: Result<(), RuntimeError>) -> (r: Result<
    GuestFuture,
    RuntimeError,
>)
    ensures
        launch_contract(launch, kind, r),
{
    match launch {
        Ok(()) => Ok(GuestFuture { kind, done: false }),
        Err(e) => Err(e),
    }
}

/// Shared poll path of the plain guest exports.
fn poll_guest(future: &mut GuestFuture, event: GuestEvent) -> (r: Result<GuestPoll, RuntimeError>)
    requires
        !old(future).is_done(),
    ensures
        poll_contract(*old(future), event, *final(future), r),
{
    match event {
        GuestEvent::Progress => Ok(GuestPoll::Pending),
        GuestEvent::Finished(outcome) => {
            future.done = true;
            Ok(GuestPoll::Ready(outcome))
        },
        GuestEvent::Trapped(message) => {
            future.done = true;
            Err(RuntimeError { message })
        },
    }
}

/// Shared poll path of the call/session exports.
fn poll_guest_call(future: &mut GuestFuture, event: GuestCallEvent) -> (r: Result<
    GuestCallPoll,
    RuntimeError,
>)
    requires
        !old(future).is_done(),
    ensures
        call_poll_contract(*old(future), event, *final(future), r),
{
    match event {
        GuestCallEvent::Progress => Ok(GuestCallPoll::Pending),
        GuestCallEvent::Finished(outcome) => {
            future.done = true;
            Ok(GuestCallPoll::Ready(outcome))
        },
        GuestCallEvent::Trapped(message) => {
            future.done = true;
            Err(RuntimeError { message })
        },
    }
}

/// A fatal setup error: the invocation never reaches a guest call.
#[derive(PartialEq, Eq, Debug)]
pub enum WasmExecutionError {
    /// The bytecode artifact is malformed or incompatible: it failed to
    /// compile into the fresh session.  Non-retryable.
    LoadModule(String),
    /// Instantiating the compiled module against the import table failed —
    /// missing imports, or a trap during start.  Non-retryable.
    Instantiate(String),
    /// The wiring that needs both the instance and the session failed.
    /// Non-retryable.
    Setup(String),
}

/// An application's compiled bytecode artifact, opaque to the bridge.
pub struct WasmApplication {
    bytecode: Vec<u8>,
}

/// One ready-to-drive execution session: the guest-application proxy, the
/// execution store, the system API wired into the guest's import table, and
/// the storage guard that is kept alive exactly as long as this context —
/// dropping the guard early would invalidate in-flight state operations.
/// The context is written against the [`Runtime`] capability set, so the
/// bridge logic is independent of the sandboxing engine behind it.
pub struct WasmRuntimeContext<R: Runtime> {
    /// The forwarded wake context and guarded storage slot, as the guest's
    /// import table sees them.
    pub system_api: SystemApi,
    /// The host's proxy for the instantiated guest.
    pub application: R::Application,
    /// The execution session the guest runs in.
    pub store: R::Store,
    storage_guard: R::StorageGuard,
}

impl WasmApplication {
    /// An application holding the compiled artifact `bytecode`.
    pub fn new(bytecode: Vec<u8>) -> (application: Self)
        ensures
            application.bytecode() == bytecode@,
    {
        WasmApplication { bytecode }
    }

    /// The compiled artifact.
    pub closed spec fn bytecode(&self) -> Seq<u8> {
        self.bytecode@
    }

    /// Assemble one execution context against the borrowed storage
    /// capability `storage`.  The engine's reports on the three setup steps —
    /// compiling the artifact into the fresh session, instantiating the
    /// module against the import table, and the wiring that needs both the
    /// instance and the session — arrive as events; the first failing step
    /// aborts the assembly with the corresponding fatal error, later events
    /// are not reached, and no context exists.  On success the context's
    /// system API starts with the capability available in its slot and no
    /// wake context installed.
    pub fn prepare_runtime(
        &self,
        storage: StateStore,
        compile: Result<(), String>,
        instantiate: Result<(), String>,
        finish_setup: Result<(), String>,
    ) -> (r: Result<WasmRuntimeContext<Wasmer>, WasmExecutionError>)
        ensures
            (match (compile, instantiate, finish_setup) {
                (Err(message), _, _) => r matches Err(e) && e
                    == WasmExecutionError::LoadModule(message),
                (Ok(()), Err(message), _) => r matches Err(e) && e
                    == WasmExecutionError::Instantiate(message),
                (Ok(()), Ok(()), Err(message)) => r matches Err(e) && e
                    == WasmExecutionError::Setup(message),
                (Ok(()), Ok(()), Ok(())) => r matches Ok(context) && context.api_model()
                    == (ApiModel {
                    wake_context: None,
                    slot: SlotModel::Available(storage.model()),
                }),
            }),
    {
        let store = Store::new();
        if let Err(message) = compile {
            return Err(WasmExecutionError::LoadModule(message));
        }
        let context_forwarder = ContextForwarder::new();
        let (system_api, storage_guard) = SystemApi::new(context_forwarder, storage);
        let application = match instantiate {
            Ok(()) => Application::instantiated(),
            Err(message) => {
                return Err(WasmExecutionError::Instantiate(message));
            },
        };
        if let Err(message) = finish_setup {
            return Err(WasmExecutionError::Setup(message));
        }
        Ok(WasmRuntimeContext { system_api, application, store, storage_guard })
    }
}

impl<R: Runtime> WasmRuntimeContext<R> {
    /// The mathematical value of the context's system API.
    pub closed spec fn api_model(&self) -> ApiModel {
        self.system_api.model()
    }
}

impl WasmRuntimeContext<Wasmer> {
    /// End the invocation, on any exit path: the storage guard vacates the
    /// slot and the capability goes back to its owner.  The system API — as
    /// the guest's import table would — survives the context, but every
    /// storage access through it now fails deterministically.
    pub fn finish(self) -> (r: (SystemApi, Option<StateStore>))
        requires
            !(self.api_model().slot is Held),
        ensures
            r.0.model() == (ApiModel {
                wake_context: self.api_model().wake_context,
                slot: SlotModel::Vacated,
            }),
            (match self.api_model().slot {
                SlotModel::Available(m) => r.1 matches Some(s) && s.model() == m,
                _ => r.1 is None,
            }),
    {
        let WasmRuntimeContext { mut system_api, application: _, store: _, storage_guard } = self;
        let storage = storage_guard.release(&mut system_api);
        (system_api, storage)
    }
}

} // verus!
