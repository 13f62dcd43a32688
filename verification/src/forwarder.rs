//! Forwarding of the asynchronous wake context.
//!
//! The host driver that polls a guest call runs inside an asynchronous task;
//! the guest itself has no notion of such tasks.  When a host future created
//! deep inside a guest call returns pending, it must register the *outer*
//! driver's wake context so that the driver is resumed later instead of
//! busy-spinning.  The forwarder is the mutable slot through which that
//! context travels: the driver installs its context before advancing the
//! guest and removes it afterwards, and every inner future reads whatever is
//! currently installed.  Because the guest is single-threaded during a call,
//! at most one wake context is active at a time.
//!
//! A wake context is represented by an opaque token; handing the token back
//! to the driver is all the bridge ever does with it.

use vstd::prelude::*;

verus! {

/// The slot holding the currently-active wake context of one invocation.
pub struct ContextForwarder {
    context: Option<u64>,
}

impl ContextForwarder {
    /// The currently-installed wake context, if any.
    pub closed spec fn current(&self) -> Option<u64> {
        self.context
    }

    /// Whether a wake context is currently installed.
    pub open spec fn has_context(&self) -> bool {
        self.current() is Some
    }

    /// A forwarder with no wake context installed yet.
    pub fn new() -> (forwarder: Self)
        ensures
            forwarder.current() is None,
    {
        ContextForwarder { context: None }
    }

    /// Install `context` as the active wake context; the driver does this
    /// just before it advances the guest.
    pub fn install(&mut self, context: u64)
        ensures
            final(self).current() == Some(context),
    {
        self.context = Some(context);
    }

    /// Remove the active wake context; the driver does this when its own
    /// poll of the guest returns.
    pub fn remove(&mut self)
        ensures
            final(self).current() is None,
    {
        self.context = None;
    }

    /// The installed wake context, readable by inner futures.
    pub fn current_context(&self) -> (context: Option<u64>)
        ensures
            context == self.current(),
    {
        self.context
    }
}

impl Default for ContextForwarder {
    /// Same as [`ContextForwarder::new`]: no wake context installed.
    fn default() -> (forwarder: Self)
        ensures
            forwarder.current() is None,
    {
        ContextForwarder::new()
    }
}

} // verus!
