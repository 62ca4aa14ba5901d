//! The host side of the capabilities a guest can reach.

use crate::error::SessionError;
use vstd::prelude::*;

verus! {

/// The single-item exchange through which a drawing surface, created on the
/// UI thread, reaches the guest exactly once.
///
/// The slot is generic in the surface so that it can carry whatever the
/// windowing layer produces; it never looks inside.
pub struct HandoffSlot<S> {
    held: Option<S>,
}

impl<S> View for HandoffSlot<S> {
    type V = Option<S>;

    closed spec fn view(&self) -> Option<S> {
        self.held
    }
}

impl<S> HandoffSlot<S> {
    /// An empty slot, as every new session has.
    pub fn new() -> (slot: Self)
        ensures
            slot@ is None,
    {
        HandoffSlot { held: None }
    }

    pub fn is_empty(&self) -> (empty: bool)
        ensures
            empty == (self@ is None),
    {
        self.held.is_none()
    }

    /// Puts `surface` into the slot and hands back whatever it displaced.
    pub fn deposit(&mut self, surface: S) -> (displaced: Option<S>)
        ensures
            final(self)@ == Some(surface),
            displaced == old(self)@,
    {
        let displaced = self.held.take();
        self.held = Some(surface);
        displaced
    }

    /// Removes the deposited surface. An empty slot is a violation of the
    /// handoff contract and is reported as such; no substitute is made up.
    pub fn take(&mut self) -> (taken: Result<S, SessionError>)
        ensures
            final(self)@ is None,
            old(self)@ matches Some(surface) ==> taken == Ok::<S, SessionError>(surface),
            old(self)@ is None ==> taken == Err::<S, SessionError>(SessionError::HandoffViolation),
    {
        match self.held.take() {
            Some(surface) => Ok(surface),
            None => Err(SessionError::HandoffViolation),
        }
    }
}

/// Runs `work` for the guest and returns what it produced. The work runs on
/// the calling thread, before this function returns.
pub fn dispatch_on_ui_thread<T, F: FnOnce() -> T>(work: F) -> (produced: T)
    requires
        work.requires(()),
    ensures
        work.ensures((), produced),
{
    work()
}

} // verus!
