//! The shared storage slot.
//!
//! The storage capability is only borrowed for the duration of one guest
//! invocation, yet the guest-callable system API must reach it through a
//! handle whose static type says nothing about that borrow.  The slot is the
//! single place where the two views meet: it holds the capability while the
//! borrow is live, hands it out under immediate, non-blocking exclusive
//! access, and is vacated — once and for all — when the paired guard ends the
//! borrow.  After that, every access fails deterministically.
//!
//! Because the guest executes as a single logical thread per invocation, a
//! second access starting while one is still in progress can only mean the
//! cooperative contract was broken; the slot reports it as a fatal defect
//! rather than waiting.

use crate::store::{StateStore, StoreModel};
use vstd::prelude::*;

verus! {

/// An unrecoverable defect in the use of the storage slot.  These are
/// invariant violations of the cooperative single-threaded execution model,
/// reported loudly instead of being silently tolerated.
#[derive(Clone, Copy, PartialEq, Eq, Structural, Debug)]
pub enum FatalError {
    /// A storage access began while another one had not yet returned.
    ConcurrentAccess,
    /// Storage was used after the paired guard had already vacated the slot.
    StorageInvalidated,
}

/// What the slot currently holds.
enum SlotState {
    /// The capability is present and nobody is accessing it.
    Available(StateStore),
    /// An access is in progress: the capability has been handed out and not
    /// yet returned.
    Held,
    /// The guard ended the borrow; the capability is gone for good.
    Vacated,
}

/// Mathematical value of a [`StorageSlot`].
pub enum SlotModel {
    Available(StoreModel),
    Held,
    Vacated,
}

/// The result an exclusive acquisition returns on a slot with value `s`: the
/// capability when it is available, otherwise the fatal defect that the
/// attempt revealed.
pub open spec fn acquire_result(s: SlotModel) -> Result<StoreModel, FatalError> {
    match s {
        SlotModel::Available(store) => Ok(store),
        SlotModel::Held => Err(FatalError::ConcurrentAccess),
        SlotModel::Vacated => Err(FatalError::StorageInvalidated),
    }
}

/// The slot value after an exclusive acquisition on a slot with value `s`:
/// held while the capability is out, otherwise unchanged.
pub open spec fn acquire_next(s: SlotModel) -> SlotModel {
    match s {
        SlotModel::Available(_) => SlotModel::Held,
        _ => s,
    }
}

/// A slot holding the borrowed storage capability for exactly the lifetime of
/// its guard, with immediate, non-blocking exclusive access.
pub struct StorageSlot {
    state: SlotState,
}

impl StorageSlot {
    /// The mathematical value of this slot.
    pub closed spec fn model(&self) -> SlotModel {
        match self.state {
            SlotState::Available(store) => SlotModel::Available(store.model()),
            SlotState::Held => SlotModel::Held,
            SlotState::Vacated => SlotModel::Vacated,
        }
    }

    /// A fresh slot holding `store`, created when the borrow of the
    /// capability begins.
    pub fn new(store: StateStore) -> (slot: Self)
        ensures
            slot.model() == SlotModel::Available(store.model()),
    {
        StorageSlot { state: SlotState::Available(store) }
    }

    /// Immediate, non-blocking exclusive acquisition of the capability.
    /// Never waits: a slot that is already held or already vacated yields the
    /// corresponding fatal defect at once.
    pub fn try_acquire(&mut self) -> (r: Result<StateStore, FatalError>)
        ensures
            final(self).model() == acquire_next(old(self).model()),
            (match acquire_result(old(self).model()) {
                Ok(store) => r matches Ok(s) && s.model() == store,
                Err(e) => r == Err::<StateStore, FatalError>(e),
            }),
    {
        let mut previous = SlotState::Held;
        core::mem::swap(&mut previous, &mut self.state);
        match previous {
            SlotState::Available(store) => Ok(store),
            SlotState::Held => {
                self.state = SlotState::Held;
                Err(FatalError::ConcurrentAccess)
            },
            SlotState::Vacated => {
                self.state = SlotState::Vacated;
                Err(FatalError::StorageInvalidated)
            },
        }
    }

    /// Return the capability at the end of an access.
    pub fn release(&mut self, store: StateStore)
        requires
            old(self).model() is Held,
        ensures
            final(self).model() == SlotModel::Available(store.model()),
    {
        self.state = SlotState::Available(store);
    }

    /// Vacate the slot because the true borrow of the capability ends here,
    /// and hand the capability back to its owner.  Only the paired guard does
    /// this, and a vacated slot never becomes available again.  An access
    /// must not still be in progress; the borrow ending while the capability
    /// is out would mean the cooperative contract was broken.
    pub fn vacate(&mut self) -> (store: Option<StateStore>)
        requires
            !(old(self).model() is Held),
        ensures
            final(self).model() == SlotModel::Vacated,
            (match old(self).model() {
                SlotModel::Available(m) => store matches Some(s) && s.model() == m,
                _ => store is None,
            }),
    {
        let mut previous = SlotState::Vacated;
        core::mem::swap(&mut previous, &mut self.state);
        match previous {
            SlotState::Available(store) => Some(store),
            _ => None,
        }
    }
}

/// Law: the slot never permits two overlapping accesses.  Whatever state an
/// acquisition starts from, a second acquisition attempted before the first
/// access has returned is rejected with the concurrent-access defect and
/// leaves the slot held — never a second copy of the capability.
pub proof fn overlapping_access_is_rejected(s: SlotModel)
    requires
        acquire_result(s) is Ok,
    ensures
        acquire_result(acquire_next(s)) == Err::<StoreModel, FatalError>(
            FatalError::ConcurrentAccess,
        ),
        acquire_next(acquire_next(s)) == acquire_next(s),
{
}

/// Law: once the slot is vacated, every later acquisition — no matter how
/// many are attempted, or through how many handles — fails deterministically
/// with the invalidated-storage defect and leaves the slot vacated.
pub proof fn access_after_vacation_fails(s: SlotModel)
    requires
        s is Vacated,
    ensures
        acquire_result(s) == Err::<StoreModel, FatalError>(FatalError::StorageInvalidated),
        acquire_next(s) == s,
{
}

} // verus!
