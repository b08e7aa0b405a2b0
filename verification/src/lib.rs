//! Reconstructs the topology of a DDSI deployment from its diagnostic log:
//! a classifier that recognises the log-line shapes of interest, and a state
//! model that folds the classified lines into participants and endpoints.
//!
//! - [`ddsi_log_regex`]: the catalog of line shapes and the classifier.
//! - [`capture`]: the named fields of a recognised line.
//! - [`ddsi_participant`]: one participant and its endpoint records.
//! - [`ddsi_topology`]: all participants, and the fold over log lines.
//! - [`table`], [`timestamp`]: the containers and values the model is made of.
//! - [`engine`]: what is taken on trust about the `regex` crate.

use vstd::prelude::*;

pub mod capture;
pub mod ddsi_log_regex;
pub mod ddsi_participant;
pub mod ddsi_topology;
pub mod engine;
pub mod table;
pub mod timestamp;

verus! {

/// What a run needs to know: the log to read and the file to report to.
pub trait DdsiLogConfig {
    /// The path of the log file.
    fn get_filename(&self) -> &str;

    /// The path of the report.
    fn get_output(&self) -> &str;
}

} // verus!
