//! The error kinds a run can end with.
//!
//! Configuration, source-read and parse errors are detected before any
//! request is dispatched.  Execution errors are fatal only in sequential
//! mode; in concurrent mode they are carried in the per-request outcome.
//! A lost completion is an accounting failure of the concurrent barrier and
//! is always fatal, distinct from an ordinary execution error.

use vstd::prelude::*;
use vstd::string::StringExecFns;

verus! {

/// The precise way a run configuration was invalid.
#[derive(Clone, Copy, PartialEq, Eq, Structural, Debug)]
pub enum ConfigIssue {
    /// The repetition count was zero: the run would schedule no work.
    ZeroRepetitions,
    /// Neither a direct URL nor a URL-list file was supplied.
    MissingTarget,
    /// Both a direct URL and a URL-list file were supplied.
    ConflictingTargets,
    /// The URL-list file held no lines at all.
    EmptyTargetList,
}

/// A fatal error of a run.
#[derive(Debug)]
pub enum RunError {
    /// The run configuration was invalid; nothing was scheduled.
    Configuration { issue: ConfigIssue },
    /// The URL-list file could not be read; `path` names it.
    SourceRead { path: String },
    /// A supplied string was not a valid URL; `input` is that exact string.
    Parse { input: String },
    /// A request could not be completed; `url` names its target and
    /// `reason` describes the failure.
    Execution { url: String, reason: String },
    /// A concurrent execution unit finished without signalling completion:
    /// the completion channel closed before the expected signal count was
    /// reached.
    LostCompletion,
}

impl RunError {
    /// What a user-facing message for this error says.
    pub open spec fn spec_describe(self) -> Seq<char> {
        match self {
            RunError::Configuration { issue } => match issue {
                ConfigIssue::ZeroRepetitions => "configuration error: cannot repeat 0 times"@,
                ConfigIssue::MissingTarget => "configuration error: missing url to test"@,
                ConfigIssue::ConflictingTargets => "configuration error: both a url and a url file were given"@,
                ConfigIssue::EmptyTargetList => "configuration error: the url file holds no urls"@,
            },
            RunError::SourceRead { path } => "error reading url file "@ + path@,
            RunError::Parse { input } => "error parsing url "@ + input@,
            RunError::Execution { url, reason } => "error requesting "@ + url@ + ": "@ + reason@,
            RunError::LostCompletion => "lost completion: a request finished without signalling"@,
        }
    }

    /// A user-facing message naming the error kind and the offending input.
    pub fn describe(&self) -> (r: String)
        ensures
            r@ == self.spec_describe(),
    {
        match self {
            RunError::Configuration { issue } => match issue {
                ConfigIssue::ZeroRepetitions => {
                    String::from_str("configuration error: cannot repeat 0 times")
                },
                ConfigIssue::MissingTarget => {
                    String::from_str("configuration error: missing url to test")
                },
                ConfigIssue::ConflictingTargets => {
                    String::from_str("configuration error: both a url and a url file were given")
                },
                ConfigIssue::EmptyTargetList => {
                    String::from_str("configuration error: the url file holds no urls")
                },
            },
            RunError::SourceRead { path } => {
                let mut m = String::from_str("error reading url file ");
                m.append(path.as_str());
                m
            },
            RunError::Parse { input } => {
                let mut m = String::from_str("error parsing url ");
                m.append(input.as_str());
                m
            },
            RunError::Execution { url, reason } => {
                let mut m = String::from_str("error requesting ");
                m.append(url.as_str());
                m.append(": ");
                m.append(reason.as_str());
                m
            },
            RunError::LostCompletion => {
                String::from_str("lost completion: a request finished without signalling")
            },
        }
    }
}

} // verus!
