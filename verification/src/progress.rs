//! Progress of a running search: how far it is and how fast it goes.

use vstd::prelude::*;

verus! {

/// A progress report is due at every attempt that is a multiple of this.
pub const PROGRESS_INTERVAL: u32 = 1000;

/// Attempts per whole second. With no whole second gone by, the number of
/// attempts itself stands for the rate, so that nothing is divided by zero.
pub open spec fn rate_of(attempts: nat, elapsed_seconds: nat) -> nat {
    if elapsed_seconds == 0 {
        attempts
    } else {
        attempts / elapsed_seconds
    }
}

/// Whether the attempt with this number is one at which progress is reported.
pub open spec fn report_due(attempt: nat) -> bool {
    attempt % (PROGRESS_INTERVAL as nat) == 0
}

/// One progress report. It is computed for the moment and kept nowhere.
#[derive(Clone, Copy, Debug, PartialEq, Eq, Structural)]
pub struct SearchProgress {
    pub attempts_so_far: u32,
    pub elapsed_seconds: u64,
    pub rate: u64,
}

impl SearchProgress {
    /// The report's rate is the one that its other two fields give.
    pub open spec fn consistent(self) -> bool {
        self.rate == rate_of(self.attempts_so_far as nat, self.elapsed_seconds as nat)
    }

    /// The report for `attempts_so_far` attempts after `elapsed_seconds`
    /// whole seconds.
    pub fn new(attempts_so_far: u32, elapsed_seconds: u64) -> (progress: SearchProgress)
        ensures
            progress.attempts_so_far == attempts_so_far,
            progress.elapsed_seconds == elapsed_seconds,
            progress.rate == rate_of(attempts_so_far as nat, elapsed_seconds as nat),
    {
        let attempts: u64 = attempts_so_far as u64;
        let rate: u64 = if elapsed_seconds > 0 {
            attempts / elapsed_seconds
        } else {
            attempts
        };
        SearchProgress { attempts_so_far, elapsed_seconds, rate }
    }
}

/// Whether a report is due at this attempt.
pub fn is_report_due(attempt: u32) -> (due: bool)
    ensures
        due == report_due(attempt as nat),
{
    attempt % PROGRESS_INTERVAL == 0
}

} // verus!
