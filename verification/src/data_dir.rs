//! Where the sidecar keeps its state.
//!
//! The preferred place is the application's data directory. Where the
//! platform cannot name one, the current working directory takes its place,
//! and where that is unknown too, the empty path does, so that the data
//! directory is then named relative to wherever the process runs. Creating
//! the directory may fail; the path is kept all the same, and startup goes
//! on.

use crate::config::text_of;
use crate::diagnostics::{log_of, LogEvent, LogEventView};
use vstd::prelude::*;

verus! {

/// The mathematical content of a [`DataDirOutcome`].
pub ghost struct DataDirOutcomeView {
    pub path: Seq<char>,
    pub created: bool,
}

/// The data directory of a run: its path, and whether it is known to exist.
#[derive(Debug, PartialEq, Eq)]
pub struct DataDirOutcome {
    path: String,
    created: bool,
}

impl View for DataDirOutcome {
    type V = DataDirOutcomeView;

    closed spec fn view(&self) -> DataDirOutcomeView {
        DataDirOutcomeView { path: self.path@, created: self.created }
    }
}

/// The base directory to fall back on when the platform names no
/// application data directory: the working directory, or the empty path.
pub open spec fn fallback_base_of(working_dir: Option<Seq<char>>) -> Seq<char> {
    match working_dir {
        Some(dir) => dir,
        None => Seq::<char>::empty(),
    }
}

/// The outcome of trying to create the directory at `path`: `failure` is
/// what the operating system said, if it refused.
pub open spec fn outcome_of(path: Seq<char>, failure: Option<Seq<char>>) -> DataDirOutcomeView {
    DataDirOutcomeView { path, created: failure is None }
}

/// What is logged about the attempt to create the directory: nothing where
/// it succeeded, one error with the reason where it failed.
pub open spec fn creation_log(failure: Option<Seq<char>>) -> Option<LogEventView> {
    match failure {
        Some(reason) => Some(LogEventView::DirectoryCreationFailed { reason }),
        None => None,
    }
}

/// The base directory of the data directory: the application data
/// directory where the platform names one, else the fallback.
pub open spec fn base_of(
    preferred: Option<Seq<char>>,
    working_dir: Option<Seq<char>>,
) -> Seq<char> {
    match preferred {
        Some(dir) => dir,
        None => fallback_base_of(working_dir),
    }
}

/// The base directory to fall back on when the platform names no
/// application data directory.
pub fn fallback_base(working_dir: Option<String>) -> (base: String)
    ensures
        base@ == fallback_base_of(text_of(working_dir)),
{
    match working_dir {
        Some(dir) => dir,
        None => String::new(),
    }
}

/// Settles the data directory after the attempt to create it at `path`;
/// `failure` is what the operating system said, if it refused. A failure
/// goes no further than the log: the path is kept either way.
pub fn settle(path: String, failure: Option<String>) -> (settled: (
    DataDirOutcome,
    Option<LogEvent>,
))
    ensures
        settled.0@ == outcome_of(path@, text_of(failure)),
        log_of(settled.1) == creation_log(text_of(failure)),
{
    match failure {
        Some(reason) => (
            DataDirOutcome { path, created: false },
            Some(LogEvent::DirectoryCreationFailed { reason }),
        ),
        None => (DataDirOutcome { path, created: true }, None),
    }
}

impl DataDirOutcome {
    pub fn new(path: String, created: bool) -> (outcome: DataDirOutcome)
        ensures
            outcome@ == (DataDirOutcomeView { path: path@, created }),
    {
        DataDirOutcome { path, created }
    }

    pub fn path(&self) -> (path: &String)
        ensures
            path@ == self@.path,
    {
        &self.path
    }

    /// Whether the directory was created, or was there already.
    pub fn created(&self) -> (created: bool)
        ensures
            created == self@.created,
    {
        self.created
    }
}

impl Clone for DataDirOutcome {
    fn clone(&self) -> (copy: DataDirOutcome)
        ensures
            copy@ == self@,
    {
        DataDirOutcome { path: self.path.clone(), created: self.created }
    }
}

} // verus!
