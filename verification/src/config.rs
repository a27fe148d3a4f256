//! Run configuration: the target set, the repetition count, the concurrency
//! mode and the per-request timeout.
//!
//! All validation happens here, before any work is scheduled: a zero
//! repetition count, a missing or ambiguous target source, an empty URL
//! list and a malformed URL are each rejected with the matching error, so
//! no request is ever issued for an invalid run.

use vstd::prelude::*;
use crate::errors::{ConfigIssue, RunError};
use crate::target::{uri_ok, Target};

verus! {

/// How the work list is driven: strictly one request at a time, or one
/// independent concurrent execution unit per request.
#[derive(Clone, Copy, PartialEq, Eq, Structural, Debug)]
pub enum Mode {
    Sequential,
    Concurrent,
}

/// The ordered set of target URLs of a run.  Order-preserving; uniqueness
/// is not required.
pub struct TargetSet {
    targets: Vec<Target>,
}

impl View for TargetSet {
    type V = Seq<Target>;

    closed spec fn view(&self) -> Seq<Target> {
        self.targets@
    }
}

/// Every line is a URL the client's parser accepts.
pub open spec fn all_lines_ok(lines: Seq<String>) -> bool {
    forall|i: int| 0 <= i < lines.len() ==> uri_ok(lines[i]@)
}

impl TargetSet {
    /// A target set holding the one given target.
    pub fn single(t: Target) -> (r: TargetSet)
        ensures
            r@ == seq![t],
    {
        let targets = vec![t];
        TargetSet { targets }
    }

    /// The number of targets.
    pub fn len(&self) -> (r: usize)
        ensures
            r == self@.len(),
    {
        self.targets.len()
    }

    /// The target at position `i`.
    pub fn get(&self, i: usize) -> (r: &Target)
        requires
            i < self@.len(),
        ensures
            *r == self@[i as int],
    {
        &self.targets[i]
    }

    /// Parse the lines of a URL-list file, in order, into a target set.
    ///
    /// Succeeds exactly when there is at least one line and every line is a
    /// valid URL; the targets then hold the lines verbatim, in file order.
    /// An empty list is a configuration error; a malformed line fails with
    /// a parse error naming the first such line exactly.
    pub fn parse_lines(lines: &Vec<String>) -> (r: Result<TargetSet, RunError>)
        ensures
            lines@.len() == 0 ==> (r matches Err(e) && e == (RunError::Configuration {
                issue: ConfigIssue::EmptyTargetList,
            })),
            lines@.len() > 0 && all_lines_ok(lines@) ==> (r matches Ok(ts) && ts@.len()
                == lines@.len() && (forall|i: int|
                0 <= i < lines@.len() ==> (#[trigger] ts@[i])@ == lines@[i]@ && ts@[i].wf())),
            lines@.len() > 0 && !all_lines_ok(lines@) ==> (r matches Err(e) && (exists|j: int|
                0 <= j < lines@.len() && !uri_ok(#[trigger] lines@[j]@) && (forall|k: int|
                    0 <= k < j ==> uri_ok(#[trigger] lines@[k]@)) && e == (RunError::Parse {
                    input: lines@[j],
                }))),
    {
        if lines.len() == 0 {
            return Err(RunError::Configuration { issue: ConfigIssue::EmptyTargetList });
        }
        let mut targets: Vec<Target> = Vec::new();
        let mut i: usize = 0;
        while i < lines.len()
            invariant
                i <= lines@.len(),
                targets@.len() == i,
                forall|k: int| 0 <= k < i ==> uri_ok(#[trigger] lines@[k]@),
                forall|k: int|
                    0 <= k < i ==> (#[trigger] targets@[k])@ == lines@[k]@ && targets@[k].wf(),
            decreases lines@.len() - i,
        {
            match Target::parse(&lines[i]) {
                Ok(t) => {
                    targets.push(t);
                },
                Err(e) => {
                    return Err(e);
                },
            }
            i += 1;
        }
        Ok(TargetSet { targets })
    }
}

/// A validated run configuration.  One can only be built through
/// [`RunConfiguration::build`], which rejects every invalid combination
/// before any work is scheduled.
pub struct RunConfiguration {
    /// How many passes over the target set to make.  Always at least 1.
    pub repetitions: usize,
    /// Sequential or concurrent dispatch.
    pub mode: Mode,
    /// The per-request deadline, in seconds, applied uniformly to every
    /// request of the run.
    pub timeout_secs: u64,
    /// The targets, in order.  Always non-empty.
    pub targets: TargetSet,
}

impl RunConfiguration {
    /// The configuration invariant: at least one pass and at least one
    /// target.
    pub open spec fn wf(self) -> bool {
        &&& self.repetitions >= 1
        &&& self.targets@.len() >= 1
    }

    /// Build and validate a run configuration from the plain values of the
    /// command line: the repetition count, the concurrency switch, the
    /// timeout, an optional direct URL and the optional lines of a URL-list
    /// file.
    ///
    /// Exactly one of `url` and `file_lines` must be supplied; the
    /// repetition count must be at least 1; every supplied URL must parse.
    /// Each violation is a distinct error, raised before any request is
    /// issued.  On success the configuration carries the inputs unchanged,
    /// with the targets in the order they were supplied.
    pub fn build(
        repetitions: usize,
        concurrent: bool,
        timeout_secs: u64,
        url: Option<String>,
        file_lines: Option<Vec<String>>,
    ) -> (r: Result<RunConfiguration, RunError>)
        ensures
            repetitions == 0 ==> (r matches Err(e) && e == (RunError::Configuration {
                issue: ConfigIssue::ZeroRepetitions,
            })),
            repetitions >= 1 && url is None && file_lines is None ==> (r matches Err(e) && e
                == (RunError::Configuration { issue: ConfigIssue::MissingTarget })),
            repetitions >= 1 && url is Some && file_lines is Some ==> (r matches Err(e) && e
                == (RunError::Configuration { issue: ConfigIssue::ConflictingTargets })),
            r matches Ok(c) ==> {
                &&& c.wf()
                &&& c.repetitions == repetitions
                &&& c.mode == (if concurrent {
                    Mode::Concurrent
                } else {
                    Mode::Sequential
                })
                &&& c.timeout_secs == timeout_secs
            },
            repetitions >= 1 && url is Some && file_lines is None ==> ((uri_ok((url->Some_0)@)
                ==> (r matches Ok(c) && c.targets@.len() == 1 && c.targets@[0]@ == (url->Some_0)@))
                && (!uri_ok((url->Some_0)@) ==> (r matches Err(e) && e == (RunError::Parse {
                input: url->Some_0,
            })))),
            repetitions >= 1 && url is None && file_lines is Some ==> {
                let lines = file_lines->Some_0;
                &&& lines@.len() == 0 ==> (r matches Err(e) && e == (RunError::Configuration {
                    issue: ConfigIssue::EmptyTargetList,
                }))
                &&& lines@.len() > 0 && all_lines_ok(lines@) ==> (r matches Ok(c)
                    && c.targets@.len() == lines@.len() && (forall|i: int|
                    0 <= i < lines@.len() ==> (#[trigger] c.targets@[i])@ == lines@[i]@))
                &&& lines@.len() > 0 && !all_lines_ok(lines@) ==> (r matches Err(e)
                    && (exists|j: int|
                    0 <= j < lines@.len() && !uri_ok(#[trigger] lines@[j]@) && (forall|k: int|
                        0 <= k < j ==> uri_ok(#[trigger] lines@[k]@)) && e == (RunError::Parse {
                        input: lines@[j],
                    })))
            },
    {
        if repetitions == 0 {
            return Err(RunError::Configuration { issue: ConfigIssue::ZeroRepetitions });
        }
        let targets = match (url, file_lines) {
            (None, None) => {
                return Err(RunError::Configuration { issue: ConfigIssue::MissingTarget });
            },
            (Some(_), Some(_)) => {
                return Err(RunError::Configuration { issue: ConfigIssue::ConflictingTargets });
            },
            (Some(u), None) => {
                match Target::parse(&u) {
                    Ok(t) => TargetSet::single(t),
                    Err(e) => {
                        return Err(e);
                    },
                }
            },
            (None, Some(lines)) => {
                match TargetSet::parse_lines(&lines) {
                    Ok(ts) => ts,
                    Err(e) => {
                        return Err(e);
                    },
                }
            },
        };
        let mode = if concurrent {
            Mode::Concurrent
        } else {
            Mode::Sequential
        };
        Ok(RunConfiguration { repetitions, mode, timeout_secs, targets })
    }
}

} // verus!
