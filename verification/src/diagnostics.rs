//! The lifecycle events that the startup sequence reports, each with its
//! level and its human-readable message.
//!
//! The library only says what is to be logged. Whether a logger is wired in
//! to receive it is a matter of the build profile.

use vstd::prelude::*;

verus! {

/// How serious an event is.
#[derive(Clone, Copy, Debug, PartialEq, Eq, Structural)]
pub enum LogLevel {
    Error,
    Warn,
    Info,
}

/// The class of a lifecycle event.
#[derive(Clone, Copy, Debug, PartialEq, Eq, Structural)]
pub enum LogClass {
    /// The data directory could not be created.
    DirectoryCreationFailed,
    /// The sidecar binary is missing from the bundle.
    NotFound,
    /// The operating system refused to create the sidecar process.
    SpawnFailed,
    /// The sidecar is running.
    Started,
}

/// The mathematical content of a [`LogEvent`].
pub ghost enum LogEventView {
    DirectoryCreationFailed { reason: Seq<char> },
    SidecarNotFound { reason: Seq<char> },
    SpawnFailed { reason: Seq<char> },
    SidecarStarted { data_dir: Seq<char> },
}

impl LogEventView {
    pub open spec fn class(self) -> LogClass {
        match self {
            LogEventView::DirectoryCreationFailed { .. } => LogClass::DirectoryCreationFailed,
            LogEventView::SidecarNotFound { .. } => LogClass::NotFound,
            LogEventView::SpawnFailed { .. } => LogClass::SpawnFailed,
            LogEventView::SidecarStarted { .. } => LogClass::Started,
        }
    }

    /// Failing to create the data directory is an error; a missing or
    /// unstartable sidecar is a warning, since the application goes on
    /// without it; a started sidecar is information.
    pub open spec fn level(self) -> LogLevel {
        match self {
            LogEventView::DirectoryCreationFailed { .. } => LogLevel::Error,
            LogEventView::SidecarNotFound { .. } => LogLevel::Warn,
            LogEventView::SpawnFailed { .. } => LogLevel::Warn,
            LogEventView::SidecarStarted { .. } => LogLevel::Info,
        }
    }

    /// The text of the event. A reason is given as it was received; the data
    /// directory stands between double quotes, unchanged.
    pub open spec fn message(self) -> Seq<char> {
        match self {
            LogEventView::DirectoryCreationFailed { reason } => {
                "Failed to create data directory: "@ + reason
            },
            LogEventView::SidecarNotFound { reason } => {
                "Backend sidecar binary not found: "@ + reason
                    + ". AI features will be unavailable."@
            },
            LogEventView::SpawnFailed { reason } => {
                "Failed to spawn backend sidecar: "@ + reason
                    + ". AI features will be unavailable."@
            },
            LogEventView::SidecarStarted { data_dir } => {
                "Backend sidecar started successfully (Data: \""@ + data_dir + "\")"@
            },
        }
    }
}

/// One lifecycle event of the startup sequence.
#[derive(Debug, PartialEq, Eq)]
pub enum LogEvent {
    /// The data directory could not be created; `reason` is what the
    /// operating system said.
    DirectoryCreationFailed { reason: String },
    /// The sidecar binary was not found in the bundle.
    SidecarNotFound { reason: String },
    /// The sidecar process could not be created; `reason` is what the
    /// operating system said.
    SpawnFailed { reason: String },
    /// The sidecar runs and keeps its state in `data_dir`.
    SidecarStarted { data_dir: String },
}

impl View for LogEvent {
    type V = LogEventView;

    open spec fn view(&self) -> LogEventView {
        match self {
            LogEvent::DirectoryCreationFailed { reason } => LogEventView::DirectoryCreationFailed {
                reason: reason@,
            },
            LogEvent::SidecarNotFound { reason } => LogEventView::SidecarNotFound {
                reason: reason@,
            },
            LogEvent::SpawnFailed { reason } => LogEventView::SpawnFailed { reason: reason@ },
            LogEvent::SidecarStarted { data_dir } => LogEventView::SidecarStarted {
                data_dir: data_dir@,
            },
        }
    }
}

impl Clone for LogEvent {
    fn clone(&self) -> (copy: LogEvent)
        ensures
            copy@ == self@,
    {
        match self {
            LogEvent::DirectoryCreationFailed { reason } => LogEvent::DirectoryCreationFailed {
                reason: reason.clone(),
            },
            LogEvent::SidecarNotFound { reason } => LogEvent::SidecarNotFound {
                reason: reason.clone(),
            },
            LogEvent::SpawnFailed { reason } => LogEvent::SpawnFailed { reason: reason.clone() },
            LogEvent::SidecarStarted { data_dir } => LogEvent::SidecarStarted {
                data_dir: data_dir.clone(),
            },
        }
    }
}

impl LogEvent {
    pub fn class(&self) -> (class: LogClass)
        ensures
            class == self@.class(),
    {
        match self {
            LogEvent::DirectoryCreationFailed { .. } => LogClass::DirectoryCreationFailed,
            LogEvent::SidecarNotFound { .. } => LogClass::NotFound,
            LogEvent::SpawnFailed { .. } => LogClass::SpawnFailed,
            LogEvent::SidecarStarted { .. } => LogClass::Started,
        }
    }

    pub fn level(&self) -> (level: LogLevel)
        ensures
            level == self@.level(),
    {
        match self {
            LogEvent::DirectoryCreationFailed { .. } => LogLevel::Error,
            LogEvent::SidecarNotFound { .. } => LogLevel::Warn,
            LogEvent::SpawnFailed { .. } => LogLevel::Warn,
            LogEvent::SidecarStarted { .. } => LogLevel::Info,
        }
    }

    /// Renders the event for a human reader.
    pub fn message(&self) -> (text: String)
        ensures
            text@ == self@.message(),
    {
        match self {
            LogEvent::DirectoryCreationFailed { reason } => {
                String::from_str("Failed to create data directory: ").concat(reason.as_str())
            },
            LogEvent::SidecarNotFound { reason } => {
                String::from_str("Backend sidecar binary not found: ").concat(
                    reason.as_str(),
                ).concat(". AI features will be unavailable.")
            },
            LogEvent::SpawnFailed { reason } => {
                String::from_str("Failed to spawn backend sidecar: ").concat(
                    reason.as_str(),
                ).concat(". AI features will be unavailable.")
            },
            LogEvent::SidecarStarted { data_dir } => {
                String::from_str("Backend sidecar started successfully (Data: \"").concat(
                    data_dir.as_str(),
                ).concat("\")")
            },
        }
    }
}

/// The view of a log event that may be absent.
pub open spec fn log_of(log: Option<LogEvent>) -> Option<LogEventView> {
    match log {
        Some(event) => Some(event@),
        None => None,
    }
}

/// The number of events in `log` of the given class and level.
pub open spec fn count_logged(log: Seq<LogEventView>, class: LogClass, level: LogLevel) -> nat
    decreases log.len(),
{
    if log.len() == 0 {
        0
    } else {
        let rest = count_logged(log.drop_last(), class, level);
        if log.last().class() == class && log.last().level() == level {
            rest + 1
        } else {
            rest
        }
    }
}

/// Whether `needle` occurs in `text` as a run of consecutive characters.
pub open spec fn occurs_in(needle: Seq<char>, text: Seq<char>) -> bool {
    exists|at: int|
        0 <= at && at + needle.len() <= text.len() && #[trigger] text.subrange(
            at,
            at + needle.len(),
        ) == needle
}

/// What an event was made with, a reason or a data directory.
pub open spec fn detail_of(event: LogEventView) -> Seq<char> {
    match event {
        LogEventView::DirectoryCreationFailed { reason } => reason,
        LogEventView::SidecarNotFound { reason } => reason,
        LogEventView::SpawnFailed { reason } => reason,
        LogEventView::SidecarStarted { data_dir } => data_dir,
    }
}

/// The message of every event holds, unchanged, the reason or the data
/// directory that the event was made with.
pub proof fn lemma_message_carries_detail(event: LogEventView)
    ensures
        occurs_in(detail_of(event), event.message()),
{
    let detail = detail_of(event);
    let lead: Seq<char> = match event {
        LogEventView::DirectoryCreationFailed { .. } => "Failed to create data directory: "@,
        LogEventView::SidecarNotFound { .. } => "Backend sidecar binary not found: "@,
        LogEventView::SpawnFailed { .. } => "Failed to spawn backend sidecar: "@,
        LogEventView::SidecarStarted { .. } => "Backend sidecar started successfully (Data: \""@,
    };
    let at = lead.len() as int;
    assert(event.message().subrange(at, at + detail.len()) =~= detail);
}

} // verus!
