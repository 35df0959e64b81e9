//! Metrics collector policy: what the sampling loop does after each sample.
//!
//! The loop samples system metrics at a fixed interval and records each
//! sample in the ring buffer. A failed sample is skipped; after ten
//! consecutive failures the collector disables itself.

use vstd::prelude::*;
use crate::admin::error::AdminError;

verus! {

/// The number of consecutive failed samples after which the collector
/// stops.
pub const MAX_CONSECUTIVE_SAMPLE_FAILURES: u32 = 10;

/// What the sampling loop does next.
#[derive(Debug)]
pub enum CollectorStep {
    /// Record the sample just taken, then wait for the next tick.
    Record,
    /// Skip this tick's sample and wait for the next tick.
    Skip,
    /// Stop the loop with this error.
    Stop(AdminError),
}

/// The state of the sampling loop: how many samples in a row have failed.
#[derive(Debug, Clone, Copy, PartialEq, Eq, Structural)]
pub struct CollectorState {
    pub consecutive_failures: u32,
}

impl CollectorState {
    /// The state before the first sample.
    pub fn new() -> (r: Self)
        ensures
            r.consecutive_failures == 0,
    {
        CollectorState { consecutive_failures: 0 }
    }

    /// The next state and action after a sample that `succeeded` or not: a
    /// success resets the failure count and records the sample; a failure
    /// counts up and skips, until the tenth failure in a row, which stops
    /// the collector.
    pub fn after_sample(self, succeeded: bool) -> (r: (Self, CollectorStep))
        requires
            self.consecutive_failures < MAX_CONSECUTIVE_SAMPLE_FAILURES,
        ensures
            succeeded ==> r.0.consecutive_failures == 0 && r.1 is Record,
            !succeeded ==> r.0.consecutive_failures == self.consecutive_failures + 1,
            !succeeded && r.0.consecutive_failures < MAX_CONSECUTIVE_SAMPLE_FAILURES ==> r.1 is Skip,
            !succeeded && r.0.consecutive_failures >= MAX_CONSECUTIVE_SAMPLE_FAILURES ==> (
            r.1 matches CollectorStep::Stop(AdminError::MetricsError(m)) && m@
                == "10 consecutive failures, collector disabled"@),
    {
        if succeeded {
            (CollectorState { consecutive_failures: 0 }, CollectorStep::Record)
        } else {
            let failures = self.consecutive_failures + 1;
            let next = CollectorState { consecutive_failures: failures };
            if failures >= MAX_CONSECUTIVE_SAMPLE_FAILURES {
                let e = AdminError::MetricsError(
                    String::from_str("10 consecutive failures, collector disabled"),
                );
                (next, CollectorStep::Stop(e))
            } else {
                (next, CollectorStep::Skip)
            }
        }
    }
}

} // verus!
