//! The guest-visible system API and its storage guard.
//!
//! One [`SystemApi`] instance is created per guest invocation and embedded in
//! the guest's import table.  It implements the state operations the guest
//! may call — `load`, `load_and_lock` and `store_and_unlock` — on top of the
//! future bridge and the guarded storage slot.  The paired [`StorageGuard`]
//! is the only value that can end the borrow of the storage capability; once
//! it has run, every further storage access through the same API fails
//! deterministically.
//!
//! The true borrow of the capability is shorter than the lifetime the
//! API's type suggests.  That gap is closed by a caller-held contract: the
//! guard must be kept alive as long as the capability is expected to be
//! usable, and must be released no later than the end of the true borrow.
//! Releasing it is what makes the erasure sound — the slot is the only path
//! to the capability, and the guard empties the slot.

use crate::forwarder::ContextForwarder;
use crate::future::{rendered_outcome, FutureModel, HostFuture, LoadOperation, PollLoad, PollLoadModel};
use crate::slot::{FatalError, SlotModel, StorageSlot};
use crate::store::{StateStore, StoreError, StoreModel};
use vstd::prelude::*;

verus! {

/// Mathematical value of a [`SystemApi`]: the installed wake context and the
/// state of the guarded storage slot.
pub struct ApiModel {
    pub wake_context: Option<u64>,
    pub slot: SlotModel,
}

/// What running `operation` against a store with value `store` does: the
/// store afterwards, and the outcome the suspended computation will deliver.
pub open spec fn run_operation(store: StoreModel, operation: LoadOperation) -> (StoreModel, Result<
    Seq<u8>,
    StoreError,
>) {
    match operation {
        LoadOperation::Load => (store, Ok(store.state)),
        LoadOperation::LoadAndLock => {
            if store.locked {
                (store, Err(StoreError::AlreadyLocked))
            } else {
                (StoreModel { state: store.state, locked: true }, Ok(store.state))
            }
        },
    }
}

/// The outcome of starting a load future (`load_new` / `load_and_lock_new`)
/// on an API with value `api`: a fresh, not-yet-started future, unless the
/// momentary storage access that guards the start reveals a fatal defect.
/// The API itself is left unchanged either way.
pub open spec fn start_outcome(api: ApiModel, operation: LoadOperation) -> Result<
    FutureModel,
    FatalError,
> {
    match api.slot {
        SlotModel::Available(_) => Ok(FutureModel::NotStarted(operation)),
        SlotModel::Held => Err(FatalError::ConcurrentAccess),
        SlotModel::Vacated => Err(FatalError::StorageInvalidated),
    }
}

/// One poll step: the API and future afterwards, and what the guest is told.
///
/// * A not-yet-started future runs its storage operation under a momentary
///   exclusive access, registers the installed wake context, and reports
///   pending — the computation suspends on I/O once.  A fatal defect in the
///   slot aborts the poll instead and leaves the future untouched.
/// * A suspended future delivers its recorded outcome and becomes complete.
/// * A complete future reports the same cached outcome again; storage is not
///   touched and nothing is recomputed.
pub open spec fn poll_next(api: ApiModel, future: FutureModel) -> (ApiModel, FutureModel, Result<
    PollLoadModel,
    FatalError,
>) {
    match future {
        FutureModel::NotStarted(operation) => match api.slot {
            SlotModel::Available(store) => {
                let (store_after, outcome) = run_operation(store, operation);
                let registered = match api.wake_context {
                    Some(context) => context,
                    None => arbitrary(),
                };
                (
                    ApiModel { wake_context: api.wake_context, slot: SlotModel::Available(store_after) },
                    FutureModel::Suspended(outcome, registered),
                    Ok(PollLoadModel::Pending),
                )
            },
            SlotModel::Held => (api, future, Err(FatalError::ConcurrentAccess)),
            SlotModel::Vacated => (api, future, Err(FatalError::StorageInvalidated)),
        },
        FutureModel::Suspended(outcome, _) => (
            api,
            FutureModel::Complete(outcome),
            Ok(rendered_outcome(outcome)),
        ),
        FutureModel::Complete(outcome) => (api, future, Ok(rendered_outcome(outcome))),
    }
}

/// The outcome of `store_and_unlock` with blob `bytes` on an API with value
/// `api`: the API afterwards and the success flag handed to the guest, or the
/// fatal defect the access revealed.  The commit succeeds exactly when the
/// write intent is held; a refused commit leaves the store unchanged and is
/// reported as `false`, not as an error value.
pub open spec fn store_next(api: ApiModel, bytes: Seq<u8>) -> (ApiModel, Result<bool, FatalError>) {
    match api.slot {
        SlotModel::Available(store) => {
            if store.locked {
                (
                    ApiModel {
                        wake_context: api.wake_context,
                        slot: SlotModel::Available(StoreModel { state: bytes, locked: false }),
                    },
                    Ok(true),
                )
            } else {
                (api, Ok(false))
            }
        },
        SlotModel::Held => (api, Err(FatalError::ConcurrentAccess)),
        SlotModel::Vacated => (api, Err(FatalError::StorageInvalidated)),
    }
}

/// The host-side implementation of the guest-callable state operations.
pub struct SystemApi {
    context: ContextForwarder,
    storage: StorageSlot,
}

/// The value that can end the borrow of the storage capability.  It must be
/// kept alive while the guest is still expected to use storage, and released
/// exactly once, on every exit path of the invocation — normal completion,
/// early return or propagated failure alike.
pub struct StorageGuard {
    _private: (),
}

impl SystemApi {
    /// The mathematical value of this API instance.
    pub closed spec fn model(&self) -> ApiModel {
        ApiModel { wake_context: self.context.current(), slot: self.storage.model() }
    }

    /// Create the API instance for one invocation, paired with the guard
    /// that will end the borrow of `storage`.  The slot starts out holding
    /// the capability; the guard is the sole mechanism that can empty it.
    pub fn new(context: ContextForwarder, storage: StateStore) -> (pair: (SystemApi, StorageGuard))
        ensures
            pair.0.model() == (ApiModel {
                wake_context: context.current(),
                slot: SlotModel::Available(storage.model()),
            }),
    {
        let api = SystemApi { context, storage: StorageSlot::new(storage) };
        (api, StorageGuard { _private: () })
    }

    /// Install `context` as the invocation's active wake context; the outer
    /// driver does this just before advancing the guest.
    pub fn install_wake_context(&mut self, context: u64)
        ensures
            final(self).model() == (ApiModel {
                wake_context: Some(context),
                slot: old(self).model().slot,
            }),
    {
        self.context.install(context);
    }

    /// Remove the active wake context when the driver's own poll returns.
    pub fn remove_wake_context(&mut self)
        ensures
            final(self).model() == (ApiModel {
                wake_context: None,
                slot: old(self).model().slot,
            }),
    {
        self.context.remove();
    }

    /// Start a future that will read the current state blob.
    pub fn load_new(&mut self) -> (r: Result<HostFuture, FatalError>)
        ensures
            final(self).model() == old(self).model(),
            (match start_outcome(old(self).model(), LoadOperation::Load) {
                Ok(m) => r matches Ok(future) && future.model() == m,
                Err(e) => r == Err::<HostFuture, FatalError>(e),
            }),
    {
        self.start(LoadOperation::Load)
    }

    /// Advance a `load` future once, using the installed wake context.
    pub fn load_poll(&mut self, future: &mut HostFuture) -> (r: Result<PollLoad, FatalError>)
        requires
            old(future).model() is NotStarted ==> old(self).model().wake_context is Some,
        ensures
            ({
                let (api_after, future_after, result) = poll_next(
                    old(self).model(),
                    old(future).model(),
                );
                &&& final(self).model() == api_after
                &&& final(future).model() == future_after
                &&& (match result {
                    Ok(p) => r matches Ok(poll) && poll.model() == p,
                    Err(e) => r == Err::<PollLoad, FatalError>(e),
                })
            }),
    {
        self.poll(future)
    }

    /// Start a future that will read the current state blob and acquire the
    /// write intent.
    pub fn load_and_lock_new(&mut self) -> (r: Result<HostFuture, FatalError>)
        ensures
            final(self).model() == old(self).model(),
            (match start_outcome(old(self).model(), LoadOperation::LoadAndLock) {
                Ok(m) => r matches Ok(future) && future.model() == m,
                Err(e) => r == Err::<HostFuture, FatalError>(e),
            }),
    {
        self.start(LoadOperation::LoadAndLock)
    }

    /// Advance a `load_and_lock` future once, using the installed wake
    /// context.
    pub fn load_and_lock_poll(&mut self, future: &mut HostFuture) -> (r: Result<
        PollLoad,
        FatalError,
    >)
        requires
            old(future).model() is NotStarted ==> old(self).model().wake_context is Some,
        ensures
            ({
                let (api_after, future_after, result) = poll_next(
                    old(self).model(),
                    old(future).model(),
                );
                &&& final(self).model() == api_after
                &&& final(future).model() == future_after
                &&& (match result {
                    Ok(p) => r matches Ok(poll) && poll.model() == p,
                    Err(e) => r == Err::<PollLoad, FatalError>(e),
                })
            }),
    {
        self.poll(future)
    }

    /// Synchronously commit `state` as the new blob and release the write
    /// intent.  The guest receives a bare success flag: the commit fails —
    /// with `false`, the store untouched — exactly when the write intent was
    /// not held, and the underlying error is deliberately not surfaced in a
    /// structured form.
    pub fn store_and_unlock(&mut self, state: &[u8]) -> (r: Result<bool, FatalError>)
        ensures
            ({
                let (api_after, result) = store_next(old(self).model(), state@);
                &&& final(self).model() == api_after
                &&& r == result
            }),
    {
        match self.storage.try_acquire() {
            Err(e) => Err(e),
            Ok(mut store) => {
                let outcome = store.save_and_unlock_my_state(vstd::slice::slice_to_vec(state));
                self.storage.release(store);
                Ok(outcome.is_ok())
            },
        }
    }

    /// Shared start path of the two asynchronous operations: a momentary
    /// exclusive storage access validates the slot, then the not-yet-started
    /// computation is wrapped in a future handle.
    fn start(&mut self, operation: LoadOperation) -> (r: Result<HostFuture, FatalError>)
        ensures
            final(self).model() == old(self).model(),
            (match start_outcome(old(self).model(), operation) {
                Ok(m) => r matches Ok(future) && future.model() == m,
                Err(e) => r == Err::<HostFuture, FatalError>(e),
            }),
    {
        match self.storage.try_acquire() {
            Err(e) => Err(e),
            Ok(store) => {
                self.storage.release(store);
                Ok(HostFuture::new(operation))
            },
        }
    }

    /// Shared poll path of the two asynchronous operations.
    fn poll(&mut self, future: &mut HostFuture) -> (r: Result<PollLoad, FatalError>)
        requires
            old(future).model() is NotStarted ==> old(self).model().wake_context is Some,
        ensures
            ({
                let (api_after, future_after, result) = poll_next(
                    old(self).model(),
                    old(future).model(),
                );
                &&& final(self).model() == api_after
                &&& final(future).model() == future_after
                &&& (match result {
                    Ok(p) => r matches Ok(poll) && poll.model() == p,
                    Err(e) => r == Err::<PollLoad, FatalError>(e),
                })
            }),
    {
        if future.is_not_started() {
            let registered = match self.context.current_context() {
                Some(context) => context,
                None => unreached(),
            };
            match self.storage.try_acquire() {
                Err(e) => Err(e),
                Ok(mut store) => {
                    let outcome = match future.operation() {
                        LoadOperation::Load => store.try_read_my_state(),
                        LoadOperation::LoadAndLock => store.try_read_and_lock_my_state(),
                    };
                    self.storage.release(store);
                    future.suspend(outcome, registered);
                    Ok(PollLoad::Pending)
                },
            }
        } else {
            Ok(future.complete())
        }
    }
}

impl StorageGuard {
    /// End the borrow of the storage capability: vacate the slot and hand the
    /// capability back to its owner.  After this, every storage access
    /// through the paired API — and through any clone of it the guest import
    /// table still holds — fails deterministically.
    pub fn release(self, api: &mut SystemApi) -> (store: Option<StateStore>)
        requires
            !(old(api).model().slot is Held),
        ensures
            final(api).model() == (ApiModel {
                wake_context: old(api).model().wake_context,
                slot: SlotModel::Vacated,
            }),
            (match old(api).model().slot {
                SlotModel::Available(m) => store matches Some(s) && s.model() == m,
                _ => store is None,
            }),
    {
        api.storage.vacate()
    }
}

/// Law: once the guard has vacated the slot, every storage operation of the
/// paired API fails deterministically with the invalidated-storage defect —
/// starting a load, polling a not-yet-started future, and committing alike —
/// and nothing about the API or the future changes.
pub proof fn invalidated_api_fails_deterministically(
    api: ApiModel,
    future: FutureModel,
    operation: LoadOperation,
    bytes: Seq<u8>,
)
    requires
        api.slot is Vacated,
        future is NotStarted,
    ensures
        start_outcome(api, operation) == Err::<FutureModel, FatalError>(
            FatalError::StorageInvalidated,
        ),
        poll_next(api, future) == (
            api,
            future,
            Err::<PollLoadModel, FatalError>(FatalError::StorageInvalidated),
        ),
        store_next(api, bytes) == (
            api,
            Err::<bool, FatalError>(FatalError::StorageInvalidated),
        ),
{
}

/// Law: a future polled before its computation has produced a result reports
/// pending, and a future polled after completion reports the same terminal
/// outcome on every further poll — cached, never recomputed — while the API
/// and the future stay unchanged.
pub proof fn poll_is_pending_then_stable(
    api: ApiModel,
    operation: LoadOperation,
    outcome: Result<Seq<u8>, StoreError>,
)
    requires
        api.slot is Available,
    ensures
        poll_next(api, FutureModel::NotStarted(operation)).2 == Ok::<PollLoadModel, FatalError>(
            PollLoadModel::Pending,
        ),
        ({
            let (api_after, future_after, result) = poll_next(api, FutureModel::Complete(outcome));
            &&& api_after == api
            &&& future_after == FutureModel::Complete(outcome)
            &&& result == Ok::<PollLoadModel, FatalError>(rendered_outcome(outcome))
        }),
{
}

/// Law: a suspended future delivers exactly its recorded outcome, and the
/// delivery is what caches it — the poll after the delivery repeats the same
/// result.
pub proof fn terminal_outcome_is_consistent(
    api: ApiModel,
    outcome: Result<Seq<u8>, StoreError>,
    registered: u64,
)
    ensures
        ({
            let (api_one, future_one, first) = poll_next(
                api,
                FutureModel::Suspended(outcome, registered),
            );
            let (api_two, future_two, second) = poll_next(api_one, future_one);
            &&& first == Ok::<PollLoadModel, FatalError>(rendered_outcome(outcome))
            &&& second == first
            &&& api_two == api
            &&& future_two == future_one
        }),
{
}

/// Law: the system API brackets every storage access inside a single call.
/// No operation leaves an access in progress, so within one invocation the
/// operations on the storage slot are strictly sequential: whatever one call
/// did, the next one never finds the slot held.
pub proof fn system_calls_leave_no_access_in_progress(
    api: ApiModel,
    future: FutureModel,
    bytes: Seq<u8>,
)
    requires
        !(api.slot is Held),
    ensures
        !(poll_next(api, future).0.slot is Held),
        !(store_next(api, bytes).0.slot is Held),
{
}

/// Law: a commit immediately followed by a load observes the just-stored
/// bytes — no intermediate caching masks the write.  From any API whose store
/// holds the write intent, `store_and_unlock` with `bytes` succeeds, and a
/// `load` future started afterwards and polled to completion is ready with
/// exactly `bytes`.
pub proof fn store_then_load_observes_write(api: ApiModel, bytes: Seq<u8>)
    requires
        api.slot matches SlotModel::Available(store) && store.locked,
        api.wake_context is Some,
    ensures
        ({
            let (api_stored, commit) = store_next(api, bytes);
            let started = start_outcome(api_stored, LoadOperation::Load);
            &&& commit == Ok::<bool, FatalError>(true)
            &&& started matches Ok(future) && {
                let (api_one, future_one, first) = poll_next(api_stored, future);
                let (api_two, future_two, second) = poll_next(api_one, future_one);
                &&& first == Ok::<PollLoadModel, FatalError>(PollLoadModel::Pending)
                &&& second == Ok::<PollLoadModel, FatalError>(
                    PollLoadModel::Ready(Ok(bytes)),
                )
                &&& api_two == api_stored
            }
        }),
{
}

} // verus!
