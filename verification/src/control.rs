use vstd::prelude::*;

use crate::error::InstallerError;

verus! {

/// Which installation run is the live one. Starting a run makes it live;
/// cancelling the live run leaves none live (run 0); a run that is no longer
/// live stops at its next check.
pub struct InstallControl {
    current_run: u64,
}

/// The live run after `run_id` starts.
pub open spec fn run_after_start(current: u64, run_id: u64) -> u64 {
    run_id
}

/// The live run after cancelling `run_id`: none if that was the live run,
/// else unchanged.
pub open spec fn run_after_cancel(current: u64, run_id: u64) -> u64 {
    if current == run_id {
        0
    } else {
        current
    }
}

impl InstallControl {
    /// The live run.
    pub closed spec fn live_run(&self) -> u64 {
        self.current_run
    }

    /// No run is live yet.
    pub fn new() -> (r: InstallControl)
        ensures
            r.live_run() == 0,
    {
        InstallControl { current_run: 0 }
    }

    /// The live run.
    pub fn current_run(&self) -> (r: u64)
        ensures
            r == self.live_run(),
    {
        self.current_run
    }

    /// Makes `run_id` the live run, superseding any other.
    pub fn start_run(&mut self, run_id: u64)
        ensures
            final(self).live_run() == run_after_start(old(self).live_run(), run_id),
    {
        self.current_run = run_id;
    }

    /// Cancels `run_id` if it is the live run; any other live run continues.
    pub fn cancel_run(&mut self, run_id: u64)
        ensures
            final(self).live_run() == run_after_cancel(old(self).live_run(), run_id),
    {
        if self.current_run == run_id {
            self.current_run = 0;
        }
    }
}

/// Fails with `Cancelled` unless `run_id` is the live run.
pub fn ensure_active(control: &InstallControl, run_id: u64) -> (r: Result<(), InstallerError>)
    ensures
        control.live_run() == run_id ==> r is Ok,
        control.live_run() != run_id ==> r matches Err(InstallerError::Cancelled),
{
    if control.current_run() == run_id {
        Ok(())
    } else {
        Err(InstallerError::Cancelled)
    }
}

/// A run that has just started passes its checks.
pub proof fn lemma_started_run_is_active(current: u64, run_id: u64)
    ensures
        run_after_start(current, run_id) == run_id,
{
}

/// Once a (non-zero) run is cancelled, its checks fail.
pub proof fn lemma_cancelled_run_stops(current: u64, run_id: u64)
    requires
        run_id != 0,
    ensures
        run_after_cancel(current, run_id) != run_id,
{
}

/// Cancelling a run that is not live leaves the live run as it is.
pub proof fn lemma_cancel_other_run_keeps_live(current: u64, run_id: u64)
    requires
        current != run_id,
    ensures
        run_after_cancel(current, run_id) == current,
{
}

/// Starting a new run stops every other run.
pub proof fn lemma_new_run_supersedes(current: u64, old_run: u64, new_run: u64)
    requires
        old_run != new_run,
    ensures
        run_after_start(current, new_run) != old_run,
{
}

} // verus!
