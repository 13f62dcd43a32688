//! Host side of a sandboxed smart-contract execution bridge.
//!
//! A blockchain node runs untrusted guest bytecode inside a sandboxed virtual
//! machine.  The guest can only call and be called through a flat, synchronous
//! boundary, while the host's storage operations are asynchronous and may
//! suspend on I/O.  This crate verifies the protocol logic that reconciles the
//! two sides:
//!
//! * a future bridge that exposes an asynchronous host computation as a
//!   poll-once-per-call value object ([`future::HostFuture`]), together with
//!   the wake-context forwarder shared by the outer driver and every inner
//!   future ([`forwarder::ContextForwarder`]);
//! * a storage slot with non-blocking exclusive access and a paired guard
//!   that invalidates the slot when the true borrow of the storage
//!   capability ends ([`slot::StorageSlot`], [`system_api::StorageGuard`]);
//! * the guest-visible system API for loading, locking and storing the
//!   application state ([`system_api::SystemApi`]);
//! * the assembly of one execution context per guest invocation and the
//!   typed proxy for the guest's exported entry points ([`runtime`]).
//!
//! The sandbox engine, the persistent storage engine and the serialization of
//! application payloads are external collaborators.  Their outcomes enter the
//! verified logic as plain values (byte strings, events reported by the
//! driver); the contracts here pin down every decision the bridge itself
//! makes about those values.

pub mod forwarder;
pub mod future;
pub mod runtime;
pub mod service;
pub mod slot;
pub mod store;
pub mod system_api;
