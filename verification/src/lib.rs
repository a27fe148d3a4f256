//! A small HTTP load-testing core: it expands a set of target URLs and a
//! repetition count into an ordered work list of GET requests, drives that
//! list either strictly in order or as an unbounded concurrent fan-out, and
//! accounts for exactly one outcome per scheduled request before a run is
//! allowed to finish.

mod config;
mod dispatch;
mod errors;
mod flight;
mod outcome;
mod report;
mod target;
mod tracker;
mod worklist;

pub use config::Mode;
pub use config::RunConfiguration;
pub use config::TargetSet;
pub use config::all_lines_ok;
pub use dispatch::Dispatcher;
pub use errors::ConfigIssue;
pub use errors::RunError;
pub use flight::FlightBound;
pub use outcome::ExecutionOutcome;
pub use outcome::OutcomeStatus;
pub use outcome::spec_server_error;
pub use report::report_line;
pub use report::report_lines;
pub use report::spec_decimal;
pub use report::spec_millis3;
pub use report::spec_report_line;
pub use report::spec_status_text;
pub use report::u64_decimal;
pub use target::Target;
pub use target::uri_ok;
pub use tracker::BarrierEvent;
pub use tracker::CompletionTracker;
pub use tracker::WaitStep;
pub use tracker::lemma_barrier_lost;
pub use tracker::lemma_barrier_releases_iff;
pub use tracker::spec_wait_outcome;
pub use worklist::RequestSpec;
pub use worklist::WorkList;
pub use worklist::lemma_work_list_len;
pub use worklist::lemma_work_list_order;
pub use worklist::pass_specs;
pub use worklist::work_list_spec;
