//! The exit gate: the first exit request drains the plugin runtime, every
//! later one is let through untouched.
use vstd::prelude::*;

verus! {

/// The status the process exits with once the runtime is drained.
pub const EXIT_STATUS: i32 = 0;

/// What the host does with an exit request.
#[derive(Clone, Copy, Debug, PartialEq, Eq, Structural)]
pub enum ExitAction {
    /// Already exiting: leave the request alone.
    Ignore,
    /// Suppress the default exit, await the runtime's termination, then exit
    /// the process with [`EXIT_STATUS`].
    Drain,
}

/// The process-wide exiting flag.
pub struct ExitGuard {
    pub exiting: bool,
}

/// Whether a request that finds the flag at `exiting` drains.
pub open spec fn drains(exiting: bool) -> bool {
    !exiting
}

/// How many drains `n` successive exit requests cause, starting from `exiting`.
pub open spec fn drain_count(exiting: bool, n: nat) -> nat
    decreases n,
{
    if n == 0 {
        0
    } else {
        (if drains(exiting) { 1nat } else { 0nat }) + drain_count(true, (n - 1) as nat)
    }
}

impl ExitGuard {
    /// A guard that has seen no exit request.
    pub fn new() -> (g: ExitGuard)
        ensures
            !g.exiting,
    {
        ExitGuard { exiting: false }
    }

    /// Handles one exit request: sets the flag and says whether this request
    /// is the one that drains.
    pub fn on_exit_requested(&mut self) -> (r: ExitAction)
        ensures
            final(self).exiting,
            (r == ExitAction::Drain) == drains(old(self).exiting),
    {
        let was = self.exiting;
        self.exiting = true;
        if was {
            ExitAction::Ignore
        } else {
            ExitAction::Drain
        }
    }
}

/// However many exit requests arrive, starting from a fresh guard, exactly
/// one of them drains the runtime and exits the process, provided at least
/// one arrives; once the flag is set none does.
pub proof fn exit_fires_once(n: nat)
    ensures
        drain_count(false, n) == (if n == 0 { 0nat } else { 1nat }),
        drain_count(true, n) == 0,
    decreases n,
{
    if n > 0 {
        exit_fires_once((n - 1) as nat);
    }
}

} // verus!
