//! The slot that holds the single handle to the audio engine.

use vstd::prelude::*;
use crate::error::BridgeError;

verus! {

/// Holds at most one engine handle. The slot starts empty, is filled by
/// `install`, and is never emptied again; `with_handle` is the only way to
/// reach the handle.
pub struct HandleSlot<H> {
    handle: Option<H>,
}

impl<H> View for HandleSlot<H> {
    type V = Option<H>;

    /// The installed handle, if any.
    closed spec fn view(&self) -> Option<H> {
        self.handle
    }
}

impl<H> HandleSlot<H> {
    /// An empty slot.
    pub fn new() -> (slot: Self)
        ensures
            slot@ is None,
    {
        HandleSlot { handle: None }
    }

    /// Stores `handle`, replacing any handle installed before.
    pub fn install(&mut self, handle: H)
        ensures
            final(self)@ == Some(handle),
    {
        self.handle = Some(handle);
    }

    /// Whether a handle has been installed.
    pub fn is_installed(&self) -> (present: bool)
        ensures
            present == (self@ is Some),
    {
        self.handle.is_some()
    }

    /// Runs `op` on the installed handle and returns what it returns. With
    /// no handle installed, `op` is not run and the result is `HandleAbsent`.
    pub fn with_handle<R, F>(&self, op: F) -> (result: Result<R, BridgeError>) where
        F: FnOnce(&H) -> Result<R, BridgeError>,

        requires
            self@ matches Some(h) ==> op.requires((&h,)),
        ensures
            match self@ {
                Some(h) => op.ensures((&h,), result),
                None => result == Err::<R, BridgeError>(BridgeError::HandleAbsent),
            },
    {
        match &self.handle {
            Some(h) => op(h),
            None => Err(BridgeError::HandleAbsent),
        }
    }
}

} // verus!
