use vstd::prelude::*;
use crate::events::UiEvent;

verus! {

/// Outcome of asking the worker to start.
#[derive(Clone, Copy, Debug, PartialEq, Eq, Structural)]
pub enum StartOutcome {
    /// The worker was idle and is now marked running.
    Started,
    /// The worker was already running; the caller reports an error
    /// event and starts nothing.
    AlreadyRunning,
}

/// Lifecycle flag for the telemetry collection worker: true while the
/// dispatch loop is meant to keep running.
pub struct SimConnectState {
    pub running: bool,
}

impl SimConnectState {
    pub fn new() -> (s: Self)
        ensures
            !s.running,
    {
        SimConnectState { running: false }
    }

    /// Marks the worker running. A second start while running is a
    /// no-op reported back to the caller.
    pub fn start(&mut self) -> (r: StartOutcome)
        ensures
            final(self).running,
            r == StartOutcome::AlreadyRunning <==> old(self).running,
    {
        if self.running {
            StartOutcome::AlreadyRunning
        } else {
            self.running = true;
            StartOutcome::Started
        }
    }

    /// Clears the running flag and yields the single quit event to
    /// emit. Idempotent: a repeated stop does the same again.
    pub fn stop(&mut self) -> (e: UiEvent)
        ensures
            !final(self).running,
            e == UiEvent::Quit,
    {
        self.running = false;
        UiEvent::Quit
    }

    /// The current running flag.
    pub fn status(&self) -> (b: bool)
        ensures
            b == self.running,
    {
        self.running
    }
}

} // verus!
