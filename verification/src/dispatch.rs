//! The dispatcher: drives the work list to completion under one of the
//! two strategies, guaranteeing one observed outcome per scheduled
//! request.
//!
//! Requests are handed out strictly in work-list order.  In sequential
//! mode each outcome is recorded as soon as it is observed and the first
//! failure halts the run (stop-on-first-error).  In concurrent mode one
//! execution unit runs per request and the dispatcher waits on a
//! [`CompletionTracker`] sized to the work list until every unit has
//! signalled — see [`crate::tracker`] for the barrier itself.

use vstd::prelude::*;
use vstd::pervasive::unreached;
use crate::config::{Mode, RunConfiguration};
use crate::errors::RunError;
use crate::outcome::{ExecutionOutcome, OutcomeStatus};
use crate::tracker::CompletionTracker;
use crate::worklist::{work_list_spec, RequestSpec, WorkList};

verus! {

impl Clone for RequestSpec {
    fn clone(&self) -> (r: Self)
        ensures
            r == *self,
    {
        RequestSpec { target: self.target.clone() }
    }
}

/// The dispatch engine of one run.
pub struct Dispatcher {
    mode: Mode,
    work: WorkList,
    issued: usize,
    halted: bool,
}

impl Dispatcher {
    /// The strategy this run uses — a pure function of its configuration.
    pub closed spec fn spec_mode(self) -> Mode {
        self.mode
    }

    /// The full work list, fixed at construction.
    pub closed spec fn spec_work(self) -> Seq<RequestSpec> {
        self.work@
    }

    /// How many requests have been handed out so far.
    pub closed spec fn spec_issued(self) -> nat {
        self.issued as nat
    }

    /// Whether sequential dispatch has halted on a failure.
    pub closed spec fn spec_halted(self) -> bool {
        self.halted
    }

    /// No more requests handed out than the work list holds.
    pub open spec fn wf(self) -> bool {
        self.spec_issued() <= self.spec_work().len()
    }

    /// Build the dispatcher for a validated configuration: its work list
    /// is the target set expanded in repeated-pass order, its mode the
    /// configured one, and nothing has been handed out or halted yet.
    pub fn new(cfg: &RunConfiguration) -> (d: Dispatcher)
        requires
            cfg.wf(),
        ensures
            d.wf(),
            d.spec_mode() == cfg.mode,
            d.spec_work() == work_list_spec(cfg.targets@, cfg.repetitions as nat),
            d.spec_issued() == 0,
            !d.spec_halted(),
    {
        match WorkList::build(&cfg.targets, cfg.repetitions) {
            Ok(work) => Dispatcher { mode: cfg.mode, work, issued: 0, halted: false },
            Err(_) => unreached(),
        }
    }

    /// The total number of scheduled requests, M×N.
    pub fn total(&self) -> (r: usize)
        ensures
            r == self.spec_work().len(),
    {
        self.work.len()
    }

    /// The configured strategy.
    pub fn mode(&self) -> (m: Mode)
        ensures
            m == self.spec_mode(),
    {
        self.mode
    }

    /// Hand out the next request, in exact work-list order; `None` once
    /// the list is exhausted or the run has halted on a failure.
    pub fn next_request(&mut self) -> (r: Option<RequestSpec>)
        requires
            old(self).wf(),
        ensures
            final(self).wf(),
            final(self).spec_mode() == old(self).spec_mode(),
            final(self).spec_work() == old(self).spec_work(),
            final(self).spec_halted() == old(self).spec_halted(),
            old(self).spec_halted() || old(self).spec_issued() == old(self).spec_work().len()
                ==> r is None && *final(self) == *old(self),
            !old(self).spec_halted() && old(self).spec_issued() < old(self).spec_work().len() ==> (
            r matches Some(s) && s == old(self).spec_work()[old(self).spec_issued() as int]
                && final(self).spec_issued() == old(self).spec_issued() + 1),
    {
        if self.halted || self.issued >= self.work.len() {
            return None;
        }
        let s = self.work.get(self.issued).clone();
        self.issued = self.issued + 1;
        Some(s)
    }

    /// Record one observed outcome under the sequential policy: a
    /// completed request lets the run continue; the first failure halts
    /// the whole run and surfaces as its terminal execution error, naming
    /// the failing target and the captured reason.
    pub fn record_outcome(&mut self, outcome: ExecutionOutcome) -> (r: Result<(), RunError>)
        requires
            old(self).wf(),
            old(self).spec_mode() is Sequential,
        ensures
            final(self).wf(),
            final(self).spec_mode() == old(self).spec_mode(),
            final(self).spec_work() == old(self).spec_work(),
            final(self).spec_issued() == old(self).spec_issued(),
            outcome.status is Completed ==> r is Ok && *final(self) == *old(self),
            outcome.status is Failed ==> final(self).spec_halted() && (r matches Err(e)
                && e matches RunError::Execution { url, reason } && url@ == outcome.target@
                && reason == outcome.status->Failed_reason),
    {
        match outcome.status {
            OutcomeStatus::Completed { .. } => Ok(()),
            OutcomeStatus::Failed { reason } => {
                self.halted = true;
                Err(RunError::Execution { url: outcome.target.to_url_string(), reason })
            },
        }
    }

    /// The completion barrier for concurrent dispatch, sized to exactly
    /// one signal per scheduled request.
    pub fn make_tracker(&self) -> (t: CompletionTracker)
        ensures
            t.spec_expected() == self.spec_work().len(),
            t.spec_received() == 0,
            t.wf(),
    {
        CompletionTracker::new(self.work.len())
    }
}

} // verus!
