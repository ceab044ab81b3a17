//! What passes between the startup sequence and the shell that runs it: the
//! actions that the sequence asks for, and the events by which the shell
//! answers.

use crate::supervisor::{
    ConfiguredCommand, ConfiguredCommandView, ExecutableRef, NotFoundError, SidecarProcessHandle,
    SpawnError,
};
use vstd::prelude::*;

verus! {

/// A capability plugin of the host application.
#[derive(Clone, Copy, Debug, PartialEq, Eq, Structural)]
pub enum Plugin {
    /// Access to the file system.
    Filesystem,
    /// Running commands, the sidecar among them.
    Shell,
    /// Delivery of updates.
    Updater,
    /// Relaunching the application after an update.
    ProcessRelaunch,
    /// Diagnostic logging.
    Logging,
}

/// The mathematical content of an [`Action`].
pub ghost enum ActionView {
    RegisterPlugin(Plugin),
    QueryAppDataDir,
    QueryCurrentDir,
    EnsureDataDir { base: Seq<char>, subdirectory: Seq<char> },
    LocateSidecar { executable_id: Seq<char> },
    SpawnDetached(ConfiguredCommandView),
    Finish,
    Abort { plugin: Plugin, reason: Seq<char> },
}

/// The outside work that the startup sequence asks for next.
#[derive(Debug, PartialEq, Eq)]
pub enum Action {
    /// Register the plugin with the host application.
    RegisterPlugin(Plugin),
    /// Ask the platform for the application's data directory.
    QueryAppDataDir,
    /// Ask for the current working directory of the process.
    QueryCurrentDir,
    /// Create `subdirectory` below `base`, with every missing directory on
    /// the way, and report the path of the result.
    EnsureDataDir { base: String, subdirectory: String },
    /// Find the sidecar binary that is bundled under this name.
    LocateSidecar { executable_id: String },
    /// Create the sidecar process with this environment and let go of it:
    /// the process is not waited for, and nothing is kept that would end it.
    SpawnDetached(ConfiguredCommand),
    /// Startup is complete; there is nothing left to do.
    Finish,
    /// Startup has failed; hand the failure to the host runtime.
    Abort { plugin: Plugin, reason: String },
}

impl View for Action {
    type V = ActionView;

    open spec fn view(&self) -> ActionView {
        match self {
            Action::RegisterPlugin(plugin) => ActionView::RegisterPlugin(*plugin),
            Action::QueryAppDataDir => ActionView::QueryAppDataDir,
            Action::QueryCurrentDir => ActionView::QueryCurrentDir,
            Action::EnsureDataDir { base, subdirectory } => ActionView::EnsureDataDir {
                base: base@,
                subdirectory: subdirectory@,
            },
            Action::LocateSidecar { executable_id } => ActionView::LocateSidecar {
                executable_id: executable_id@,
            },
            Action::SpawnDetached(command) => ActionView::SpawnDetached(command@),
            Action::Finish => ActionView::Finish,
            Action::Abort { plugin, reason } => ActionView::Abort {
                plugin: *plugin,
                reason: reason@,
            },
        }
    }
}

/// The twelve kinds of event.
#[derive(Clone, Copy, Debug, PartialEq, Eq, Structural)]
pub enum EventKind {
    PluginRegistered,
    PluginFailed,
    AppDataDirFound,
    AppDataDirUnavailable,
    CurrentDirFound,
    CurrentDirUnavailable,
    DataDirCreated,
    DataDirCreationFailed,
    SidecarLocated,
    SidecarNotFound,
    SidecarSpawned,
    SidecarSpawnFailed,
}

/// The mathematical content of an [`Event`].
pub ghost enum EventView {
    PluginRegistered(Plugin),
    PluginFailed(Plugin, Seq<char>),
    AppDataDirFound(Seq<char>),
    AppDataDirUnavailable,
    CurrentDirFound(Seq<char>),
    CurrentDirUnavailable,
    DataDirCreated { path: Seq<char> },
    DataDirCreationFailed { path: Seq<char>, reason: Seq<char> },
    SidecarLocated(Seq<char>),
    SidecarNotFound(Seq<char>),
    SidecarSpawned(SidecarProcessHandle),
    SidecarSpawnFailed(Seq<char>),
}

impl EventView {
    pub open spec fn kind(self) -> EventKind {
        match self {
            EventView::PluginRegistered(_) => EventKind::PluginRegistered,
            EventView::PluginFailed(_, _) => EventKind::PluginFailed,
            EventView::AppDataDirFound(_) => EventKind::AppDataDirFound,
            EventView::AppDataDirUnavailable => EventKind::AppDataDirUnavailable,
            EventView::CurrentDirFound(_) => EventKind::CurrentDirFound,
            EventView::CurrentDirUnavailable => EventKind::CurrentDirUnavailable,
            EventView::DataDirCreated { .. } => EventKind::DataDirCreated,
            EventView::DataDirCreationFailed { .. } => EventKind::DataDirCreationFailed,
            EventView::SidecarLocated(_) => EventKind::SidecarLocated,
            EventView::SidecarNotFound(_) => EventKind::SidecarNotFound,
            EventView::SidecarSpawned(_) => EventKind::SidecarSpawned,
            EventView::SidecarSpawnFailed(_) => EventKind::SidecarSpawnFailed,
        }
    }
}

/// The number of events of the given kind in `events`.
pub open spec fn tally(events: Seq<EventView>, kind: EventKind) -> nat
    decreases events.len(),
{
    if events.len() == 0 {
        0
    } else {
        let rest = tally(events.drop_last(), kind);
        if events.last().kind() == kind {
            rest + 1
        } else {
            rest
        }
    }
}

/// What the shell reports after it has carried out an action.
#[derive(Debug, PartialEq, Eq)]
pub enum Event {
    /// The plugin is registered.
    PluginRegistered(Plugin),
    /// The plugin could not be registered, for the reason given.
    PluginFailed(Plugin, String),
    /// The platform names this application data directory.
    AppDataDirFound(String),
    /// The platform names no application data directory.
    AppDataDirUnavailable,
    /// The current working directory.
    CurrentDirFound(String),
    /// The current working directory is not known.
    CurrentDirUnavailable,
    /// The data directory exists now, at `path`.
    DataDirCreated { path: String },
    /// The data directory at `path` could not be created, for the reason
    /// given.
    DataDirCreationFailed { path: String, reason: String },
    /// The sidecar binary was found.
    SidecarLocated(ExecutableRef),
    /// The sidecar binary is not in the bundle.
    SidecarNotFound(NotFoundError),
    /// The sidecar process was created and detached.
    SidecarSpawned(SidecarProcessHandle),
    /// The operating system refused to create the sidecar process.
    SidecarSpawnFailed(SpawnError),
}

impl View for Event {
    type V = EventView;

    open spec fn view(&self) -> EventView {
        match self {
            Event::PluginRegistered(plugin) => EventView::PluginRegistered(*plugin),
            Event::PluginFailed(plugin, reason) => EventView::PluginFailed(*plugin, reason@),
            Event::AppDataDirFound(path) => EventView::AppDataDirFound(path@),
            Event::AppDataDirUnavailable => EventView::AppDataDirUnavailable,
            Event::CurrentDirFound(path) => EventView::CurrentDirFound(path@),
            Event::CurrentDirUnavailable => EventView::CurrentDirUnavailable,
            Event::DataDirCreated { path } => EventView::DataDirCreated { path: path@ },
            Event::DataDirCreationFailed { path, reason } => EventView::DataDirCreationFailed {
                path: path@,
                reason: reason@,
            },
            Event::SidecarLocated(executable) => EventView::SidecarLocated(executable@),
            Event::SidecarNotFound(error) => EventView::SidecarNotFound(error@),
            Event::SidecarSpawned(handle) => EventView::SidecarSpawned(*handle),
            Event::SidecarSpawnFailed(error) => EventView::SidecarSpawnFailed(error@),
        }
    }
}

impl Clone for Event {
    fn clone(&self) -> (copy: Event)
        ensures
            copy@ == self@,
    {
        match self {
            Event::PluginRegistered(plugin) => Event::PluginRegistered(*plugin),
            Event::PluginFailed(plugin, reason) => Event::PluginFailed(*plugin, reason.clone()),
            Event::AppDataDirFound(path) => Event::AppDataDirFound(path.clone()),
            Event::AppDataDirUnavailable => Event::AppDataDirUnavailable,
            Event::CurrentDirFound(path) => Event::CurrentDirFound(path.clone()),
            Event::CurrentDirUnavailable => Event::CurrentDirUnavailable,
            Event::DataDirCreated { path } => Event::DataDirCreated { path: path.clone() },
            Event::DataDirCreationFailed { path, reason } => Event::DataDirCreationFailed {
                path: path.clone(),
                reason: reason.clone(),
            },
            Event::SidecarLocated(executable) => Event::SidecarLocated(executable.clone()),
            Event::SidecarNotFound(error) => Event::SidecarNotFound(error.clone()),
            Event::SidecarSpawned(handle) => Event::SidecarSpawned(*handle),
            Event::SidecarSpawnFailed(error) => Event::SidecarSpawnFailed(error.clone()),
        }
    }
}

impl Event {
    pub fn kind(&self) -> (kind: EventKind)
        ensures
            kind == self@.kind(),
    {
        match self {
            Event::PluginRegistered(_) => EventKind::PluginRegistered,
            Event::PluginFailed(_, _) => EventKind::PluginFailed,
            Event::AppDataDirFound(_) => EventKind::AppDataDirFound,
            Event::AppDataDirUnavailable => EventKind::AppDataDirUnavailable,
            Event::CurrentDirFound(_) => EventKind::CurrentDirFound,
            Event::CurrentDirUnavailable => EventKind::CurrentDirUnavailable,
            Event::DataDirCreated { .. } => EventKind::DataDirCreated,
            Event::DataDirCreationFailed { .. } => EventKind::DataDirCreationFailed,
            Event::SidecarLocated(_) => EventKind::SidecarLocated,
            Event::SidecarNotFound(_) => EventKind::SidecarNotFound,
            Event::SidecarSpawned(_) => EventKind::SidecarSpawned,
            Event::SidecarSpawnFailed(_) => EventKind::SidecarSpawnFailed,
        }
    }

    /// The event that reports how looking for the sidecar binary ended.
    pub fn from_locate(result: Result<ExecutableRef, NotFoundError>) -> (event: Event)
        ensures
            event@ == match result {
                Ok(executable) => EventView::SidecarLocated(executable@),
                Err(error) => EventView::SidecarNotFound(error@),
            },
    {
        match result {
            Ok(executable) => Event::SidecarLocated(executable),
            Err(error) => Event::SidecarNotFound(error),
        }
    }

    /// The event that reports how creating the sidecar process ended.
    pub fn from_spawn(result: Result<SidecarProcessHandle, SpawnError>) -> (event: Event)
        ensures
            event@ == match result {
                Ok(handle) => EventView::SidecarSpawned(handle),
                Err(error) => EventView::SidecarSpawnFailed(error@),
            },
    {
        match result {
            Ok(handle) => Event::SidecarSpawned(handle),
            Err(error) => Event::SidecarSpawnFailed(error),
        }
    }

    /// The event that reports how registering `plugin` ended: `failure` is
    /// the reason, if it failed.
    pub fn from_registration(plugin: Plugin, failure: Option<String>) -> (event: Event)
        ensures
            event@ == match failure {
                None => EventView::PluginRegistered(plugin),
                Some(reason) => EventView::PluginFailed(plugin, reason@),
            },
    {
        match failure {
            None => Event::PluginRegistered(plugin),
            Some(reason) => Event::PluginFailed(plugin, reason),
        }
    }
}

} // verus!
