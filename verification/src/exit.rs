//! Exit-state tracking for a single command-line run.
//!
//! A run starts out successful; any reported failure moves the verdict to
//! `Failure`, and nothing ever moves it back.

use vstd::prelude::*;

verus! {

/// The verdict surfaced as the process's terminal status.
#[derive(Clone, Copy, Debug, PartialEq, Eq, Structural)]
pub enum ExitStatus {
    Success,
    Failure,
}

/// Per-run mutable cell holding the eventual exit status.
///
/// One tracker belongs to one logical run: it is initialized to `Success`
/// when the run starts, may be moved to `Failure` any number of times, and
/// is read once at the very end.
pub struct ExitTracker {
    status: ExitStatus,
}

impl View for ExitTracker {
    type V = ExitStatus;

    closed spec fn view(&self) -> ExitStatus {
        self.status
    }
}

impl ExitTracker {
    /// A fresh tracker reports `Success`.
    pub fn new() -> (t: ExitTracker)
        ensures
            t@ == ExitStatus::Success,
    {
        ExitTracker { status: ExitStatus::Success }
    }

    /// Read the present verdict.
    pub fn current(&self) -> (r: ExitStatus)
        ensures
            r == self@,
    {
        self.status
    }

    /// Ensure a failure exit status.
    ///
    /// Idempotent: marking an already failed run leaves it failed. No
    /// operation of the tracker restores `Success`.
    pub fn mark_failed(&mut self)
        ensures
            final(self)@ == ExitStatus::Failure,
    {
        self.status = ExitStatus::Failure;
    }
}

/// The verdict after `n` further `mark_failed` calls starting from `s`.
///
/// `mark_failed` is the tracker's only mutating operation, so this models
/// every sequence of operations a run can perform on its tracker.
pub open spec fn after_marks(s: ExitStatus, n: nat) -> ExitStatus
    decreases n,
{
    if n == 0 {
        s
    } else {
        after_marks(ExitStatus::Failure, (n - 1) as nat)
    }
}

/// Law: from any starting verdict, one or more `mark_failed` calls leave the
/// tracker at `Failure`.
pub proof fn lemma_exit_state_monotonic(s: ExitStatus, n: nat)
    requires
        n > 0,
    ensures
        after_marks(s, n) == ExitStatus::Failure,
    decreases n,
{
    if n == 1 {
        assert(after_marks(s, 1) == after_marks(ExitStatus::Failure, 0));
    } else {
        lemma_exit_state_monotonic(ExitStatus::Failure, (n - 1) as nat);
    }
}

/// Law: once a run has failed, no sequence of tracker operations reaches
/// `Success` again.
pub proof fn lemma_failure_is_permanent(n: nat)
    ensures
        after_marks(ExitStatus::Failure, n) == ExitStatus::Failure,
    decreases n,
{
    if n > 0 {
        lemma_failure_is_permanent((n - 1) as nat);
    }
}

} // verus!
