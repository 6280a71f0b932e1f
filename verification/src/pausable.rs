//! The pause gate and the operations that a host offers on it.

use vstd::prelude::*;
use crate::error::{Error, ErrorView};
use crate::event::{Event, EventView};

verus! {

/// The state that a toggle leads to from the state `paused`.
pub open spec fn toggled(paused: bool) -> bool {
    !paused
}

/// Pausing and resuming a host.
///
/// A host is either running or paused, and starts running. None of the
/// operations asks who calls: a host that restricts them checks the caller
/// before it calls them.
pub trait Pausable {
    /// Whether the host is paused.
    spec fn is_paused(&self) -> bool;

    /// Pauses a running host and resumes a paused one, and reports which
    /// of the two it did.
    fn toggle_pause(&mut self) -> (event: Event)
        ensures
            final(self).is_paused() == toggled(old(self).is_paused()),
            event@ == (if old(self).is_paused() {
                EventView::Unpaused
            } else {
                EventView::Paused
            }),
    ;

    /// Pauses the host, whatever its state, and reports it.
    fn pause(&mut self) -> (event: Event)
        ensures
            final(self).is_paused(),
            event@ == EventView::Paused,
    ;

    /// Resumes the host, whatever its state, and reports it.
    fn unpause(&mut self) -> (event: Event)
        ensures
            !final(self).is_paused(),
            event@ == EventView::Unpaused,
    ;

    /// The guard of an operation that must not run while the host is
    /// paused: `OperationPaused` where it is, `Ok` where it is not.
    fn when_not_paused(&self) -> (outcome: Result<(), Error>)
        ensures
            outcome is Ok <==> !self.is_paused(),
            outcome is Err ==> outcome->Err_0@ == ErrorView::OperationPaused,
    ;
}

/// The flag that tells whether a host is paused.
#[derive(Debug, PartialEq, Eq)]
pub struct PauseGate {
    pause_status: bool,
}

impl View for PauseGate {
    type V = bool;

    closed spec fn view(&self) -> bool {
        self.pause_status
    }
}

impl PauseGate {
    /// The pause gate of a running host.
    pub fn new() -> (gate: Self)
        ensures
            !gate@,
    {
        PauseGate { pause_status: false }
    }

    /// The pause gate of a host that is paused or not, as `pause_status`
    /// says: the way back from the flag that a host keeps between calls.
    pub fn with_status(pause_status: bool) -> (gate: Self)
        ensures
            gate@ == pause_status,
    {
        PauseGate { pause_status }
    }

    /// Whether the host is paused.
    pub fn pause_status(&self) -> (paused: bool)
        ensures
            paused == self@,
    {
        self.pause_status
    }
}

impl Pausable for PauseGate {
    open spec fn is_paused(&self) -> bool {
        self@
    }

    fn toggle_pause(&mut self) -> (event: Event) {
        if !self.pause_status {
            self.pause()
        } else {
            self.unpause()
        }
    }

    fn pause(&mut self) -> (event: Event) {
        self.pause_status = true;
        Event::Paused
    }

    fn unpause(&mut self) -> (event: Event) {
        self.pause_status = false;
        Event::Unpaused
    }

    fn when_not_paused(&self) -> (outcome: Result<(), Error>) {
        if self.pause_status {
            Err(Error::OperationPaused)
        } else {
            Ok(())
        }
    }
}

} // verus!
