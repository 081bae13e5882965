//! Supervision strategies and decisions.
use vstd::prelude::*;

verus! {

/// What to do when a child actor fails.
#[derive(Debug, Clone, Copy, PartialEq, Eq, Structural)]
pub enum SupervisionStrategy {
    /// Restart only the failed child, up to `max_retries` times.
    OneForOne { max_retries: u32, within_secs: u64 },
    /// Restart all children when one fails, up to `max_retries` times.
    AllForOne { max_retries: u32, within_secs: u64 },
    /// Stop the failed child.
    Stop,
    /// Hand the failure to the parent supervisor.
    Escalate,
}

impl Default for SupervisionStrategy {
    fn default() -> (r: Self)
        ensures
            r == (SupervisionStrategy::OneForOne { max_retries: 3, within_secs: 60 }),
    {
        SupervisionStrategy::OneForOne { max_retries: 3, within_secs: 60 }
    }
}

/// A supervisor's decision about a failed child.
#[derive(Debug, Clone, Copy, PartialEq, Eq, Structural)]
pub enum SupervisionDecision {
    /// Restart the child.
    Restart,
    /// Stop the child.
    Stop,
    /// Hand the failure to the parent supervisor.
    Escalate,
    /// Ignore the error and let the child go on.
    Resume,
}

} // verus!
