//! The work list: the target set expanded into one request specification
//! per scheduled request.
//!
//! The list is built pass by pass: the full target set, in its own order,
//! repeated once per repetition, passes concatenated in repetition order.
//! A target set of size M repeated N times gives exactly M×N entries.  The
//! list is derived once per run and never mutated afterwards.

use vstd::prelude::*;
use crate::errors::{ConfigIssue, RunError};
use crate::target::Target;
use crate::config::TargetSet;

verus! {

/// One fully specified request: the method is always GET, so a target
/// alone determines it.
pub struct RequestSpec {
    pub target: Target,
}

impl RequestSpec {
    /// The fixed request method.
    pub fn method_name(&self) -> (r: &'static str)
        ensures
            r@ == "GET"@,
    {
        "GET"
    }
}

/// One pass over the target set: one request specification per target, in
/// target-set order.
pub open spec fn pass_specs(targets: Seq<Target>) -> Seq<RequestSpec> {
    targets.map_values(|t: Target| RequestSpec { target: t })
}

/// The whole work list: `reps` passes over the target set, concatenated in
/// repetition order.
pub open spec fn work_list_spec(targets: Seq<Target>, reps: nat) -> Seq<RequestSpec>
    decreases reps,
{
    if reps == 0 {
        Seq::empty()
    } else {
        work_list_spec(targets, (reps - 1) as nat) + pass_specs(targets)
    }
}

/// A target set of size M repeated N times schedules exactly M×N requests,
/// for every N ≥ 0 and every M.
pub proof fn lemma_work_list_len(targets: Seq<Target>, reps: nat)
    ensures
        work_list_spec(targets, reps).len() == targets.len() * reps,
    decreases reps,
{
    if reps == 0 {
        assert(targets.len() * 0 == 0) by (nonlinear_arith);
    } else {
        lemma_work_list_len(targets, (reps - 1) as nat);
        assert(targets.len() * (reps - 1) + targets.len() == targets.len() * reps)
            by (nonlinear_arith);
    }
}

/// The work list is in exact repeated-pass order: the entry at position
/// `p×M + j` — pass `p`, position `j` within the pass — is the request for
/// target `j` of the target set.
pub proof fn lemma_work_list_order(targets: Seq<Target>, reps: nat, p: nat, j: nat)
    requires
        p < reps,
        j < targets.len(),
    ensures
        work_list_spec(targets, reps).len() == targets.len() * reps,
        p * targets.len() + j < targets.len() * reps,
        work_list_spec(targets, reps)[(p * targets.len() + j) as int].target == targets[j as int],
    decreases reps,
{
    lemma_work_list_len(targets, reps);
    let m = targets.len();
    assert(p * m + j < m * reps) by (nonlinear_arith)
        requires
            p < reps,
            j < m,
    ;
    if p + 1 == reps {
        lemma_work_list_len(targets, (reps - 1) as nat);
        assert(p * m == m * (reps - 1)) by (nonlinear_arith)
            requires
                p + 1 == reps,
        ;
        assert(work_list_spec(targets, reps)[(p * m + j) as int] == pass_specs(targets)[j as int]);
    } else {
        lemma_work_list_order(targets, (reps - 1) as nat, p, j);
        assert(p * m + j < m * (reps - 1)) by (nonlinear_arith)
            requires
                p + 1 < reps,
                j < m,
        ;
        assert(work_list_spec(targets, reps)[(p * m + j) as int] == work_list_spec(
            targets,
            (reps - 1) as nat,
        )[(p * m + j) as int]);
    }
}

/// The ordered list of requests a run will execute.  Built once, consumed
/// in order (sequential) or distributed across execution units
/// (concurrent), never mutated after construction.
pub struct WorkList {
    specs: Vec<RequestSpec>,
}

impl View for WorkList {
    type V = Seq<RequestSpec>;

    closed spec fn view(&self) -> Seq<RequestSpec> {
        self.specs@
    }
}

impl WorkList {
    /// Expand a target set of size M and a repetition count N into the
    /// work list of exactly M×N requests, in repeated-pass order.
    ///
    /// N = 0 and M = 0 are configuration errors, rejected here before any
    /// work could be scheduled.
    pub fn build(targets: &TargetSet, repetitions: usize) -> (r: Result<WorkList, RunError>)
        ensures
            repetitions == 0 ==> (r matches Err(e) && e == (RunError::Configuration {
                issue: ConfigIssue::ZeroRepetitions,
            })),
            repetitions >= 1 && targets@.len() == 0 ==> (r matches Err(e) && e
                == (RunError::Configuration { issue: ConfigIssue::MissingTarget })),
            repetitions >= 1 && targets@.len() >= 1 ==> (r matches Ok(w) && w@ == work_list_spec(
                targets@,
                repetitions as nat,
            )),
    {
        if repetitions == 0 {
            return Err(RunError::Configuration { issue: ConfigIssue::ZeroRepetitions });
        }
        if targets.len() == 0 {
            return Err(RunError::Configuration { issue: ConfigIssue::MissingTarget });
        }
        let mut specs: Vec<RequestSpec> = Vec::new();
        let mut p: usize = 0;
        while p < repetitions
            invariant
                p <= repetitions,
                specs@ == work_list_spec(targets@, p as nat),
            decreases repetitions - p,
        {
            let mut j: usize = 0;
            while j < targets.len()
                invariant
                    j <= targets@.len(),
                    specs@ == work_list_spec(targets@, p as nat) + pass_specs(targets@).take(
                        j as int,
                    ),
                decreases targets@.len() - j,
            {
                let t = targets.get(j).clone();
                specs.push(RequestSpec { target: t });
                proof {
                    assert(pass_specs(targets@).take(j + 1) =~= pass_specs(targets@).take(j as int)
                        + seq![pass_specs(targets@)[j as int]]);
                    assert(specs@ =~= work_list_spec(targets@, p as nat) + pass_specs(
                        targets@,
                    ).take(j + 1));
                }
                j += 1;
            }
            proof {
                assert(pass_specs(targets@).take(targets@.len() as int) =~= pass_specs(targets@));
                assert(specs@ =~= work_list_spec(targets@, (p + 1) as nat));
            }
            p += 1;
        }
        Ok(WorkList { specs })
    }

    /// The total number of scheduled requests.
    pub fn len(&self) -> (r: usize)
        ensures
            r == self@.len(),
    {
        self.specs.len()
    }

    /// The request at position `i` of the list.
    pub fn get(&self, i: usize) -> (r: &RequestSpec)
        requires
            i < self@.len(),
        ensures
            *r == self@[i as int],
    {
        &self.specs[i]
    }
}

} // verus!
