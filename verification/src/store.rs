//! Model of the borrowed storage capability.
//!
//! The persistent storage engine is an external collaborator: the bridge only
//! sees it through a narrow read / lock / write contract over a single opaque
//! state blob.  [`StateStore`] holds exactly what that contract exposes — the
//! current state bytes and the write-intent flag — so every decision the
//! bridge makes about storage outcomes can be verified on plain values.

use vstd::prelude::*;

verus! {

/// Why the storage capability refused an operation.
#[derive(Clone, Copy, PartialEq, Eq, Structural, Debug)]
pub enum StoreError {
    /// `try_read_and_lock_my_state` found the write intent already taken.
    AlreadyLocked,
    /// `save_and_unlock_my_state` was called without holding the write intent.
    NotLocked,
}

/// The diagnostic text a [`StoreError`] is rendered to before it crosses the
/// guest boundary, where errors travel as opaque text rather than as
/// structured values.
pub open spec fn store_error_text(e: StoreError) -> Seq<char> {
    match e {
        StoreError::AlreadyLocked => "the application state is already locked"@,
        StoreError::NotLocked => "the application state is not locked"@,
    }
}

impl StoreError {
    /// Render the error as the opaque diagnostic text shown to the guest.
    pub fn render(&self) -> (text: String)
        ensures
            text@ == store_error_text(*self),
    {
        match self {
            StoreError::AlreadyLocked => String::from_str(
                "the application state is already locked",
            ),
            StoreError::NotLocked => String::from_str("the application state is not locked"),
        }
    }
}

/// Mathematical value of a [`StateStore`]: the state blob and the
/// write-intent flag.
pub struct StoreModel {
    pub state: Seq<u8>,
    pub locked: bool,
}

/// One application's persistent state as the bridge sees it: the current
/// state blob plus the exclusive-commit reservation (the "write intent")
/// acquired by `try_read_and_lock_my_state` and released by
/// `save_and_unlock_my_state`.
#[derive(Debug)]
pub struct StateStore {
    state: Vec<u8>,
    locked: bool,
}

impl StateStore {
    /// The mathematical value of this store.
    pub closed spec fn model(&self) -> StoreModel {
        StoreModel { state: self.state@, locked: self.locked }
    }

    /// A fresh store holding `initial` with no write intent taken.
    pub fn new(initial: Vec<u8>) -> (store: Self)
        ensures
            store.model() == (StoreModel { state: initial@, locked: false }),
    {
        StateStore { state: initial, locked: false }
    }

    /// The current state blob.
    pub fn state_bytes(&self) -> (bytes: Vec<u8>)
        ensures
            bytes@ == self.model().state,
    {
        vstd::slice::slice_to_vec(self.state.as_slice())
    }

    /// Whether the write intent is currently held.
    pub fn is_locked(&self) -> (locked: bool)
        ensures
            locked == self.model().locked,
    {
        self.locked
    }

    /// Read the current state blob without taking the write intent.
    pub fn try_read_my_state(&self) -> (r: Result<Vec<u8>, StoreError>)
        ensures
            r matches Ok(bytes) && bytes@ == self.model().state,
    {
        Ok(vstd::slice::slice_to_vec(self.state.as_slice()))
    }

    /// Read the current state blob and acquire the write intent, so that no
    /// other commit can happen until `save_and_unlock_my_state` releases it.
    /// Refused if the intent is already held.
    pub fn try_read_and_lock_my_state(&mut self) -> (r: Result<Vec<u8>, StoreError>)
        ensures
            old(self).model().locked ==> {
                &&& r == Err::<Vec<u8>, StoreError>(StoreError::AlreadyLocked)
                &&& final(self).model() == old(self).model()
            },
            !old(self).model().locked ==> {
                &&& r matches Ok(bytes) && bytes@ == old(self).model().state
                &&& final(self).model() == (StoreModel {
                    state: old(self).model().state,
                    locked: true,
                })
            },
    {
        if self.locked {
            Err(StoreError::AlreadyLocked)
        } else {
            self.locked = true;
            Ok(vstd::slice::slice_to_vec(self.state.as_slice()))
        }
    }

    /// Commit `state` as the new blob and release the write intent.  Refused
    /// — and the store left unchanged — if the intent is not held.
    pub fn save_and_unlock_my_state(&mut self, state: Vec<u8>) -> (r: Result<(), StoreError>)
        ensures
            old(self).model().locked ==> {
                &&& r == Ok::<(), StoreError>(())
                &&& final(self).model() == (StoreModel { state: state@, locked: false })
            },
            !old(self).model().locked ==> {
                &&& r == Err::<(), StoreError>(StoreError::NotLocked)
                &&& final(self).model() == old(self).model()
            },
    {
        if self.locked {
            self.state = state;
            self.locked = false;
            Ok(())
        } else {
            Err(StoreError::NotLocked)
        }
    }
}

} // verus!
