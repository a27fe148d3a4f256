//! Execution outcomes: what became of one scheduled request.
//!
//! Exactly one outcome exists per scheduled request.  A completed request
//! carries its status code and elapsed time; a failed one carries a
//! failure reason and the elapsed time up to the failure point.  A
//! server-error response (status 500–599) is still a completed request —
//! it is flagged for the reporter, not classified as a failure.

use vstd::prelude::*;
use crate::target::Target;

verus! {

/// How one request ended: a response with a status code, or a failure to
/// complete at all (connection error, protocol error, timeout).
pub enum OutcomeStatus {
    Completed { code: u16 },
    Failed { reason: String },
}

/// The result of executing one request specification.
pub struct ExecutionOutcome {
    /// The target the request was addressed to.
    pub target: Target,
    /// Whole seconds of wall-clock time the request took.
    pub elapsed_secs: u64,
    /// Millisecond remainder of the elapsed time; below 1000.
    pub elapsed_millis: u16,
    /// How the request ended.
    pub status: OutcomeStatus,
}

/// A completed request whose status code indicates a server error.
pub open spec fn spec_server_error(o: ExecutionOutcome) -> bool {
    o.status matches OutcomeStatus::Completed { code } && 500 <= code <= 599
}

impl ExecutionOutcome {
    /// The outcome of a request that received a response.
    pub fn completed(target: Target, elapsed_secs: u64, elapsed_millis: u16, code: u16) -> (r:
        ExecutionOutcome)
        ensures
            r == (ExecutionOutcome {
                target,
                elapsed_secs,
                elapsed_millis,
                status: OutcomeStatus::Completed { code },
            }),
    {
        ExecutionOutcome { target, elapsed_secs, elapsed_millis, status: OutcomeStatus::Completed {
            code,
        } }
    }

    /// The outcome of a request that could not be completed.
    pub fn failed(target: Target, elapsed_secs: u64, elapsed_millis: u16, reason: String) -> (r:
        ExecutionOutcome)
        ensures
            r == (ExecutionOutcome {
                target,
                elapsed_secs,
                elapsed_millis,
                status: OutcomeStatus::Failed { reason },
            }),
    {
        ExecutionOutcome { target, elapsed_secs, elapsed_millis, status: OutcomeStatus::Failed {
            reason,
        } }
    }

    /// Whether the request completed — received any response at all,
    /// server errors included.
    pub fn is_completed(&self) -> (r: bool)
        ensures
            r == self.status is Completed,
    {
        match self.status {
            OutcomeStatus::Completed { .. } => true,
            OutcomeStatus::Failed { .. } => false,
        }
    }

    /// Whether the response status flags a server error (500–599).  True
    /// only for completed requests: a failure has no status code.
    pub fn is_server_error(&self) -> (r: bool)
        ensures
            r == spec_server_error(*self),
    {
        match self.status {
            OutcomeStatus::Completed { code } => 500 <= code && code <= 599,
            OutcomeStatus::Failed { .. } => false,
        }
    }
}

} // verus!
