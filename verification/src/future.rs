//! The host future: an asynchronous host computation exposed to the guest as
//! a value object that is polled once per call.
//!
//! The guest boundary is synchronous, so a storage operation that may suspend
//! on I/O cannot simply be awaited inside a guest-callable function.  Instead
//! the system API hands the guest an opaque future handle; the guest calls
//! back to poll it and either learns that the computation is still pending —
//! and must yield before polling again — or receives the terminal outcome.
//!
//! A future is not started until it is first polled.  The first poll performs
//! the storage operation, records its outcome together with the wake context
//! it registered, and reports pending (the operation suspends on I/O once).
//! The next poll delivers the outcome, and once a future is complete every
//! further poll reports the same cached outcome without touching storage
//! again.

use crate::store::{store_error_text, StoreError};
use vstd::prelude::*;

verus! {

/// Which storage operation a future runs.
#[derive(Clone, Copy, PartialEq, Eq, Structural, Debug)]
pub enum LoadOperation {
    /// Read the state blob without taking the write intent.
    Load,
    /// Read the state blob and take the write intent.
    LoadAndLock,
}

/// What the guest sees when it polls a load future: either it must poll again
/// later, or the terminal outcome — the state bytes, or the storage error
/// rendered as opaque diagnostic text.
#[derive(PartialEq, Eq, Debug)]
pub enum PollLoad {
    Pending,
    Ready(Result<Vec<u8>, String>),
}

/// Mathematical value of a [`PollLoad`].
pub enum PollLoadModel {
    Pending,
    Ready(Result<Seq<u8>, Seq<char>>),
}

impl PollLoad {
    /// The mathematical value of this poll result.
    pub open spec fn model(&self) -> PollLoadModel {
        match self {
            PollLoad::Pending => PollLoadModel::Pending,
            PollLoad::Ready(Ok(bytes)) => PollLoadModel::Ready(Ok(bytes@)),
            PollLoad::Ready(Err(text)) => PollLoadModel::Ready(Err(text@)),
        }
    }
}

/// How a terminal storage outcome crosses the guest boundary: the bytes pass
/// through unchanged, an error is rendered to its diagnostic text.
pub open spec fn rendered_outcome(outcome: Result<Seq<u8>, StoreError>) -> PollLoadModel {
    match outcome {
        Ok(bytes) => PollLoadModel::Ready(Ok(bytes)),
        Err(e) => PollLoadModel::Ready(Err(store_error_text(e))),
    }
}

/// Where a future stands between polls.
#[derive(Debug)]
enum FutureState {
    /// Created, never polled: the storage operation has not run.
    NotStarted,
    /// First poll done: the operation ran, its outcome is recorded, and the
    /// wake context it registered is remembered; the guest was told pending.
    Suspended(Result<Vec<u8>, StoreError>, u64),
    /// The outcome was delivered; it stays cached for any further poll.
    Complete(Result<Vec<u8>, StoreError>),
}

/// Mathematical value of a [`HostFuture`].
pub enum FutureModel {
    NotStarted(LoadOperation),
    Suspended(Result<Seq<u8>, StoreError>, u64),
    Complete(Result<Seq<u8>, StoreError>),
}

/// A lazily-driven asynchronous storage computation, owned by the guest as an
/// opaque handle and advanced only through the system API's poll calls.
#[derive(Debug)]
pub struct HostFuture {
    operation: LoadOperation,
    state: FutureState,
}

impl HostFuture {
    /// The mathematical value of this future.
    pub closed spec fn model(&self) -> FutureModel {
        match self.state {
            FutureState::NotStarted => FutureModel::NotStarted(self.operation),
            FutureState::Suspended(outcome, registered) => FutureModel::Suspended(
                match outcome {
                    Ok(bytes) => Ok(bytes@),
                    Err(e) => Err(e),
                },
                registered,
            ),
            FutureState::Complete(outcome) => FutureModel::Complete(
                match outcome {
                    Ok(bytes) => Ok(bytes@),
                    Err(e) => Err(e),
                },
            ),
        }
    }

    /// Wrap the not-yet-started storage operation `operation` in a future
    /// handle.  Takes no wake context, runs nothing, and never fails.
    pub fn new(operation: LoadOperation) -> (future: Self)
        ensures
            future.model() == FutureModel::NotStarted(operation),
    {
        HostFuture { operation, state: FutureState::NotStarted }
    }

    /// Whether the future has never been polled, so that its storage
    /// operation has not run yet.
    pub fn is_not_started(&self) -> (r: bool)
        ensures
            r == (self.model() is NotStarted),
    {
        match self.state {
            FutureState::NotStarted => true,
            _ => false,
        }
    }

    /// Which storage operation this future runs.
    pub fn operation(&self) -> (operation: LoadOperation)
        ensures
            self.model() matches FutureModel::NotStarted(op) ==> operation == op,
    {
        self.operation
    }

    /// Record the outcome of the first poll: the operation ran, `outcome` is
    /// its result, and `registered` is the wake context handed to the
    /// suspended computation.
    pub(crate) fn suspend(&mut self, outcome: Result<Vec<u8>, StoreError>, registered: u64)
        requires
            old(self).model() is NotStarted,
        ensures
            final(self).model() == FutureModel::Suspended(
                match outcome {
                    Ok(bytes) => Ok::<Seq<u8>, StoreError>(bytes@),
                    Err(e) => Err::<Seq<u8>, StoreError>(e),
                },
                registered,
            ),
    {
        self.state = FutureState::Suspended(outcome, registered);
    }

    /// Deliver the recorded outcome: render it for the guest and cache it as
    /// the terminal state of the future.
    pub(crate) fn complete(&mut self) -> (r: PollLoad)
        requires
            old(self).model() is Suspended || old(self).model() is Complete,
        ensures
            ({
                let outcome = match old(self).model() {
                    FutureModel::Suspended(outcome, _) => outcome,
                    FutureModel::Complete(outcome) => outcome,
                    FutureModel::NotStarted(_) => arbitrary(),
                };
                &&& final(self).model() == FutureModel::Complete(outcome)
                &&& r.model() == rendered_outcome(outcome)
            }),
    {
        let mut taken = FutureState::NotStarted;
        core::mem::swap(&mut taken, &mut self.state);
        let outcome = match taken {
            FutureState::Suspended(outcome, _) => outcome,
            FutureState::Complete(outcome) => outcome,
            FutureState::NotStarted => unreached(),
        };
        let rendered = match &outcome {
            Ok(bytes) => PollLoad::Ready(Ok(vstd::slice::slice_to_vec(bytes.as_slice()))),
            Err(e) => PollLoad::Ready(Err(e.render())),
        };
        self.state = FutureState::Complete(outcome);
        rendered
    }
}

} // verus!
