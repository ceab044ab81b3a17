//! The startup sequence as a state machine.
//!
//! A run begins in [`Bootstrap::start`]. The shell asks for the pending
//! action, carries it out, and reports the answer to [`Bootstrap::step`],
//! until the machine is ready or has aborted. The order is fixed: the file
//! system plugin, the shell plugin, where the platform updates itself the
//! updater and relaunch plugins, where it has a sidecar the data directory
//! and the one attempt to start the sidecar, and in development builds the
//! logging plugin. A plugin that cannot be registered ends the run. Nothing
//! that goes wrong with the data directory or the sidecar does.

use crate::config::{
    standard_config, BootstrapConfig, SidecarConfig, DATA_SUBDIRECTORY, SIDECAR_ID,
};
use crate::data_dir::{
    creation_log, fallback_base, outcome_of, settle, DataDirOutcome, DataDirOutcomeView,
};
use crate::diagnostics::{log_of, LogEvent, LogEventView};
use crate::protocol::{Action, ActionView, Event, EventView, Plugin};
use crate::supervisor::{
    configure, configured_command, ExecutableRef, OutcomeKind, SpawnOutcome, SpawnOutcomeView,
};
use vstd::prelude::*;

verus! {

/// The phases of a run, in the order in which they are passed.
#[derive(Clone, Copy, Debug, PartialEq, Eq, Structural)]
pub enum Phase {
    /// The core plugins are being registered.
    Init,
    /// The core plugins are registered.
    PluginsRegistered,
    /// The data directory is settled.
    DataDirResolved,
    /// The attempt to start the sidecar has been made, and ended this way.
    SidecarAttempted(OutcomeKind),
    /// Startup is complete.
    Ready,
    /// Startup has failed.
    Aborted,
}

/// The mathematical content of an [`Attempt`].
pub ghost struct AttemptView {
    pub data_dir: DataDirOutcomeView,
    pub outcome: SpawnOutcomeView,
}

/// The record of the one attempt to start the sidecar.
#[derive(Debug, PartialEq, Eq)]
pub struct Attempt {
    /// The data directory that the attempt was made with.
    pub data_dir: DataDirOutcome,
    /// How the attempt ended.
    pub outcome: SpawnOutcome,
}

impl View for Attempt {
    type V = AttemptView;

    open spec fn view(&self) -> AttemptView {
        AttemptView { data_dir: self.data_dir@, outcome: self.outcome@ }
    }
}

/// The view of an attempt that may not have been made.
pub open spec fn attempt_of(attempt: Option<Attempt>) -> Option<AttemptView> {
    match attempt {
        Some(a) => Some(a@),
        None => None,
    }
}

/// The mathematical content of a [`Stage`].
pub ghost enum StageView {
    Registering(Plugin),
    AwaitingAppDataDir,
    AwaitingCurrentDir,
    EnsuringDataDir { base: Seq<char> },
    Locating { data_dir: DataDirOutcomeView },
    Spawning { data_dir: DataDirOutcomeView, executable: Seq<char> },
    SidecarAttempted(AttemptView),
    Ready(Option<AttemptView>),
    Aborted { plugin: Plugin, reason: Seq<char>, attempt: Option<AttemptView> },
}

/// Where a run stands: what it waits for, and what it has settled so far.
#[derive(Debug, PartialEq, Eq)]
pub enum Stage {
    /// Waiting for the plugin to be registered. For the logging plugin this
    /// is the stage only on a platform without a sidecar.
    Registering(Plugin),
    /// Waiting for the platform to name the application data directory.
    AwaitingAppDataDir,
    /// Waiting for the current working directory, the fallback.
    AwaitingCurrentDir,
    /// Waiting for the data directory to be created below `base`.
    EnsuringDataDir { base: String },
    /// Waiting for the sidecar binary to be found.
    Locating { data_dir: DataDirOutcome },
    /// Waiting for the sidecar process to be created.
    Spawning { data_dir: DataDirOutcome, executable: ExecutableRef },
    /// The attempt has been made; waiting for the logging plugin.
    SidecarAttempted(Attempt),
    /// Startup is complete.
    Ready(Option<Attempt>),
    /// Startup has failed on a plugin.
    Aborted { plugin: Plugin, reason: String, attempt: Option<Attempt> },
}

impl View for Stage {
    type V = StageView;

    open spec fn view(&self) -> StageView {
        match self {
            Stage::Registering(plugin) => StageView::Registering(*plugin),
            Stage::AwaitingAppDataDir => StageView::AwaitingAppDataDir,
            Stage::AwaitingCurrentDir => StageView::AwaitingCurrentDir,
            Stage::EnsuringDataDir { base } => StageView::EnsuringDataDir { base: base@ },
            Stage::Locating { data_dir } => StageView::Locating { data_dir: data_dir@ },
            Stage::Spawning { data_dir, executable } => StageView::Spawning {
                data_dir: data_dir@,
                executable: executable@,
            },
            Stage::SidecarAttempted(attempt) => StageView::SidecarAttempted(attempt@),
            Stage::Ready(attempt) => StageView::Ready(attempt_of(*attempt)),
            Stage::Aborted { plugin, reason, attempt } => StageView::Aborted {
                plugin: *plugin,
                reason: reason@,
                attempt: attempt_of(*attempt),
            },
        }
    }
}

impl StageView {
    /// Ready and aborted are the two ends of a run.
    pub open spec fn is_terminal(self) -> bool {
        self is Ready || self is Aborted
    }

    /// The phase that the stage belongs to.
    pub open spec fn phase(self) -> Phase {
        match self {
            StageView::Registering(plugin) => if plugin == Plugin::Logging {
                Phase::PluginsRegistered
            } else {
                Phase::Init
            },
            StageView::AwaitingAppDataDir => Phase::PluginsRegistered,
            StageView::AwaitingCurrentDir => Phase::PluginsRegistered,
            StageView::EnsuringDataDir { .. } => Phase::PluginsRegistered,
            StageView::Locating { .. } => Phase::DataDirResolved,
            StageView::Spawning { .. } => Phase::DataDirResolved,
            StageView::SidecarAttempted(attempt) => Phase::SidecarAttempted(attempt.outcome.kind()),
            StageView::Ready(_) => Phase::Ready,
            StageView::Aborted { .. } => Phase::Aborted,
        }
    }

    /// The record of the attempt to start the sidecar, once it is made.
    pub open spec fn attempt(self) -> Option<AttemptView> {
        match self {
            StageView::SidecarAttempted(attempt) => Some(attempt),
            StageView::Ready(attempt) => attempt,
            StageView::Aborted { attempt, .. } => attempt,
            _ => None,
        }
    }

    /// The data directory, once it is settled.
    pub open spec fn data_dir(self) -> Option<DataDirOutcomeView> {
        match self {
            StageView::Locating { data_dir } => Some(data_dir),
            StageView::Spawning { data_dir, .. } => Some(data_dir),
            _ => match self.attempt() {
                Some(attempt) => Some(attempt.data_dir),
                None => None,
            },
        }
    }

    /// How the attempt to start the sidecar ended, once it is made.
    pub open spec fn outcome(self) -> Option<SpawnOutcomeView> {
        match self.attempt() {
            Some(attempt) => Some(attempt.outcome),
            None => None,
        }
    }

    /// The outside work that the stage waits for.
    pub open spec fn pending(self) -> ActionView {
        match self {
            StageView::Registering(plugin) => ActionView::RegisterPlugin(plugin),
            StageView::AwaitingAppDataDir => ActionView::QueryAppDataDir,
            StageView::AwaitingCurrentDir => ActionView::QueryCurrentDir,
            StageView::EnsuringDataDir { base } => ActionView::EnsureDataDir {
                base,
                subdirectory: DATA_SUBDIRECTORY@,
            },
            StageView::Locating { .. } => ActionView::LocateSidecar { executable_id: SIDECAR_ID@ },
            StageView::Spawning { data_dir, executable } => ActionView::SpawnDetached(
                configured_command(executable, standard_config(Some(data_dir.path))),
            ),
            StageView::SidecarAttempted(_) => ActionView::RegisterPlugin(Plugin::Logging),
            StageView::Ready(_) => ActionView::Finish,
            StageView::Aborted { plugin, reason, .. } => ActionView::Abort { plugin, reason },
        }
    }

    /// Whether `event` answers the action that the stage waits for.
    pub open spec fn accepts(self, event: EventView) -> bool {
        match self {
            StageView::Registering(plugin) => {
                ||| event == EventView::PluginRegistered(plugin)
                ||| event matches EventView::PluginFailed(failed, _) && failed == plugin
            },
            StageView::AwaitingAppDataDir => {
                event is AppDataDirFound || event is AppDataDirUnavailable
            },
            StageView::AwaitingCurrentDir => {
                event is CurrentDirFound || event is CurrentDirUnavailable
            },
            StageView::EnsuringDataDir { .. } => {
                event is DataDirCreated || event is DataDirCreationFailed
            },
            StageView::Locating { .. } => event is SidecarLocated || event is SidecarNotFound,
            StageView::Spawning { .. } => event is SidecarSpawned || event is SidecarSpawnFailed,
            StageView::SidecarAttempted(_) => {
                ||| event == EventView::PluginRegistered(Plugin::Logging)
                ||| event matches EventView::PluginFailed(failed, _) && failed == Plugin::Logging
            },
            StageView::Ready(_) => false,
            StageView::Aborted { .. } => false,
        }
    }
}

/// The stage that follows the core plugins.
pub open spec fn after_core(config: BootstrapConfig) -> StageView {
    if config.capabilities.has_sidecar {
        StageView::AwaitingAppDataDir
    } else if config.diagnostics {
        StageView::Registering(Plugin::Logging)
    } else {
        StageView::Ready(None)
    }
}

/// The stage that follows the attempt to start the sidecar.
pub open spec fn after_attempt(config: BootstrapConfig, attempt: AttemptView) -> StageView {
    if config.diagnostics {
        StageView::SidecarAttempted(attempt)
    } else {
        StageView::Ready(Some(attempt))
    }
}

/// The stage that follows the registration of `plugin`.
pub open spec fn after_plugin(config: BootstrapConfig, plugin: Plugin) -> StageView {
    match plugin {
        Plugin::Filesystem => StageView::Registering(Plugin::Shell),
        Plugin::Shell => if config.capabilities.has_updater {
            StageView::Registering(Plugin::Updater)
        } else {
            after_core(config)
        },
        Plugin::Updater => StageView::Registering(Plugin::ProcessRelaunch),
        Plugin::ProcessRelaunch => after_core(config),
        Plugin::Logging => StageView::Ready(None),
    }
}

/// The stage that follows `stage` when `event` answers its action. Where it
/// does not, the stage stays.
pub open spec fn next_stage(config: BootstrapConfig, stage: StageView, event: EventView) -> StageView {
    match (stage, event) {
        (StageView::Registering(plugin), EventView::PluginRegistered(_)) => after_plugin(
            config,
            plugin,
        ),
        (StageView::Registering(plugin), EventView::PluginFailed(_, reason)) => StageView::Aborted {
            plugin,
            reason,
            attempt: None,
        },
        (StageView::AwaitingAppDataDir, EventView::AppDataDirFound(path)) => {
            StageView::EnsuringDataDir { base: path }
        },
        (StageView::AwaitingAppDataDir, EventView::AppDataDirUnavailable) => {
            StageView::AwaitingCurrentDir
        },
        (StageView::AwaitingCurrentDir, EventView::CurrentDirFound(path)) => {
            StageView::EnsuringDataDir { base: path }
        },
        (StageView::AwaitingCurrentDir, EventView::CurrentDirUnavailable) => {
            StageView::EnsuringDataDir { base: Seq::<char>::empty() }
        },
        (StageView::EnsuringDataDir { .. }, EventView::DataDirCreated { path }) => {
            StageView::Locating { data_dir: outcome_of(path, None) }
        },
        (StageView::EnsuringDataDir { .. }, EventView::DataDirCreationFailed { path, reason }) => {
            StageView::Locating { data_dir: outcome_of(path, Some(reason)) }
        },
        (StageView::Locating { data_dir }, EventView::SidecarLocated(executable)) => {
            StageView::Spawning { data_dir, executable }
        },
        (StageView::Locating { data_dir }, EventView::SidecarNotFound(reason)) => after_attempt(
            config,
            AttemptView { data_dir, outcome: SpawnOutcomeView::NotFound(reason) },
        ),
        (StageView::Spawning { data_dir, .. }, EventView::SidecarSpawned(handle)) => after_attempt(
            config,
            AttemptView { data_dir, outcome: SpawnOutcomeView::Started(handle) },
        ),
        (StageView::Spawning { data_dir, .. }, EventView::SidecarSpawnFailed(reason)) => {
            after_attempt(
                config,
                AttemptView { data_dir, outcome: SpawnOutcomeView::SpawnFailed(reason) },
            )
        },
        (StageView::SidecarAttempted(attempt), EventView::PluginRegistered(_)) => StageView::Ready(
            Some(attempt),
        ),
        (StageView::SidecarAttempted(attempt), EventView::PluginFailed(_, reason)) => {
            StageView::Aborted { plugin: Plugin::Logging, reason, attempt: Some(attempt) }
        },
        _ => stage,
    }
}

/// What is logged when `event` answers the action of `stage`.
pub open spec fn logged(stage: StageView, event: EventView) -> Option<LogEventView> {
    match (stage, event) {
        (StageView::EnsuringDataDir { .. }, EventView::DataDirCreationFailed { reason, .. }) => {
            creation_log(Some(reason))
        },
        (StageView::Locating { .. }, EventView::SidecarNotFound(reason)) => Some(
            LogEventView::SidecarNotFound { reason },
        ),
        (StageView::Spawning { data_dir, .. }, EventView::SidecarSpawned(_)) => Some(
            LogEventView::SidecarStarted { data_dir: data_dir.path },
        ),
        (StageView::Spawning { .. }, EventView::SidecarSpawnFailed(reason)) => Some(
            LogEventView::SpawnFailed { reason },
        ),
        _ => None,
    }
}

/// The mathematical content of a [`Bootstrap`].
pub ghost struct BootstrapView {
    pub config: BootstrapConfig,
    pub stage: StageView,
}

/// The mathematical content of a [`Transition`].
pub ghost struct TransitionView {
    pub next: BootstrapView,
    pub log: Option<LogEventView>,
    pub accepted: bool,
}

impl BootstrapView {
    /// Whether the stage is one that a run with this configuration can be
    /// in. Nothing about the sidecar is waited for where the platform has
    /// none, nor a plugin that the configuration leaves out; a ready run
    /// has the record of its attempt exactly where the platform has a
    /// sidecar; and a run that aborted on a core plugin has no attempt on
    /// record.
    pub open spec fn wf(self) -> bool {
        let has_sidecar = self.config.capabilities.has_sidecar;
        let has_updater = self.config.capabilities.has_updater;
        let diagnostics = self.config.diagnostics;
        match self.stage {
            StageView::Registering(plugin) => match plugin {
                Plugin::Filesystem => true,
                Plugin::Shell => true,
                Plugin::Updater => has_updater,
                Plugin::ProcessRelaunch => has_updater,
                Plugin::Logging => diagnostics && !has_sidecar,
            },
            StageView::AwaitingAppDataDir => has_sidecar,
            StageView::AwaitingCurrentDir => has_sidecar,
            StageView::EnsuringDataDir { .. } => has_sidecar,
            StageView::Locating { .. } => has_sidecar,
            StageView::Spawning { .. } => has_sidecar,
            StageView::SidecarAttempted(_) => has_sidecar && diagnostics,
            StageView::Ready(attempt) => attempt is Some <==> has_sidecar,
            StageView::Aborted { plugin, attempt, .. } => match plugin {
                Plugin::Filesystem => attempt is None,
                Plugin::Shell => attempt is None,
                Plugin::Updater => has_updater && attempt is None,
                Plugin::ProcessRelaunch => has_updater && attempt is None,
                Plugin::Logging => diagnostics && (attempt is Some <==> has_sidecar),
            },
        }
    }

    /// The state in which every run begins.
    pub open spec fn start(config: BootstrapConfig) -> BootstrapView {
        BootstrapView { config, stage: StageView::Registering(Plugin::Filesystem) }
    }

    /// One step of the run. An event that does not answer the pending
    /// action is not accepted: it changes nothing and logs nothing.
    pub open spec fn step(self, event: EventView) -> TransitionView {
        if self.stage.accepts(event) {
            TransitionView {
                next: BootstrapView {
                    config: self.config,
                    stage: next_stage(self.config, self.stage, event),
                },
                log: logged(self.stage, event),
                accepted: true,
            }
        } else {
            TransitionView { next: self, log: None, accepted: false }
        }
    }
}

/// The state of one run of the startup sequence.
#[derive(Debug, PartialEq, Eq)]
pub struct Bootstrap {
    config: BootstrapConfig,
    stage: Stage,
}

impl View for Bootstrap {
    type V = BootstrapView;

    closed spec fn view(&self) -> BootstrapView {
        BootstrapView { config: self.config, stage: self.stage@ }
    }
}

impl Bootstrap {
    /// Every state that a run can be in is well formed.
    #[verifier::type_invariant]
    pub open spec fn well_formed(self) -> bool {
        self@.wf()
    }
}

/// What one step of the run gave.
#[derive(Debug, PartialEq, Eq)]
pub struct Transition {
    /// The state after the step.
    pub next: Bootstrap,
    /// What the step logs, if anything.
    pub log: Option<LogEvent>,
    /// Whether the event answered the pending action.
    pub accepted: bool,
}

impl View for Transition {
    type V = TransitionView;

    open spec fn view(&self) -> TransitionView {
        TransitionView { next: self.next@, log: log_of(self.log), accepted: self.accepted }
    }
}

fn stage_after_core(config: BootstrapConfig) -> (stage: Stage)
    ensures
        stage@ == after_core(config),
{
    if config.capabilities.has_sidecar {
        Stage::AwaitingAppDataDir
    } else if config.diagnostics {
        Stage::Registering(Plugin::Logging)
    } else {
        Stage::Ready(None)
    }
}

fn stage_after_attempt(config: BootstrapConfig, attempt: Attempt) -> (stage: Stage)
    ensures
        stage@ == after_attempt(config, attempt@),
{
    if config.diagnostics {
        Stage::SidecarAttempted(attempt)
    } else {
        Stage::Ready(Some(attempt))
    }
}

fn stage_after_plugin(config: BootstrapConfig, plugin: Plugin) -> (stage: Stage)
    ensures
        stage@ == after_plugin(config, plugin),
{
    match plugin {
        Plugin::Filesystem => Stage::Registering(Plugin::Shell),
        Plugin::Shell => if config.capabilities.has_updater {
            Stage::Registering(Plugin::Updater)
        } else {
            stage_after_core(config)
        },
        Plugin::Updater => Stage::Registering(Plugin::ProcessRelaunch),
        Plugin::ProcessRelaunch => stage_after_core(config),
        Plugin::Logging => Stage::Ready(None),
    }
}

impl Stage {
    /// The phase that the stage belongs to.
    pub fn phase(&self) -> (phase: Phase)
        ensures
            phase == self@.phase(),
    {
        match self {
            Stage::Registering(plugin) => match plugin {
                Plugin::Logging => Phase::PluginsRegistered,
                _ => Phase::Init,
            },
            Stage::AwaitingAppDataDir => Phase::PluginsRegistered,
            Stage::AwaitingCurrentDir => Phase::PluginsRegistered,
            Stage::EnsuringDataDir { .. } => Phase::PluginsRegistered,
            Stage::Locating { .. } => Phase::DataDirResolved,
            Stage::Spawning { .. } => Phase::DataDirResolved,
            Stage::SidecarAttempted(attempt) => Phase::SidecarAttempted(attempt.outcome.kind()),
            Stage::Ready(_) => Phase::Ready,
            Stage::Aborted { .. } => Phase::Aborted,
        }
    }

    /// The record of the attempt to start the sidecar, once it is made.
    pub fn attempt(&self) -> (attempt: Option<&Attempt>)
        ensures
            match attempt {
                Some(a) => self@.attempt() == Some(a@),
                None => self@.attempt() is None,
            },
    {
        match self {
            Stage::SidecarAttempted(attempt) => Some(attempt),
            Stage::Ready(attempt) => attempt.as_ref(),
            Stage::Aborted { attempt, .. } => attempt.as_ref(),
            _ => None,
        }
    }
}

impl Bootstrap {
    /// Begins a run: nothing is registered yet.
    pub fn start(config: BootstrapConfig) -> (state: Bootstrap)
        ensures
            state@ == BootstrapView::start(config),
            state@.wf(),
    {
        Bootstrap { config, stage: Stage::Registering(Plugin::Filesystem) }
    }

    pub fn config(&self) -> (config: BootstrapConfig)
        ensures
            config == self@.config,
    {
        self.config
    }

    pub fn stage(&self) -> (stage: &Stage)
        ensures
            stage@ == self@.stage,
    {
        &self.stage
    }

    pub fn phase(&self) -> (phase: Phase)
        ensures
            phase == self@.stage.phase(),
    {
        self.stage.phase()
    }

    /// Whether startup is complete.
    pub fn is_ready(&self) -> (ready: bool)
        ensures
            ready == (self@.stage is Ready),
    {
        match &self.stage {
            Stage::Ready(_) => true,
            _ => false,
        }
    }

    /// Whether the run has ended, ready or aborted.
    pub fn is_terminal(&self) -> (terminal: bool)
        ensures
            terminal == self@.stage.is_terminal(),
    {
        match &self.stage {
            Stage::Ready(_) => true,
            Stage::Aborted { .. } => true,
            _ => false,
        }
    }

    /// How the attempt to start the sidecar ended, once it is made.
    pub fn outcome(&self) -> (outcome: Option<&SpawnOutcome>)
        ensures
            match outcome {
                Some(o) => self@.stage.outcome() == Some(o@),
                None => self@.stage.outcome() is None,
            },
    {
        match self.stage.attempt() {
            Some(attempt) => Some(&attempt.outcome),
            None => None,
        }
    }

    /// The data directory, once it is settled.
    pub fn data_dir(&self) -> (data_dir: Option<&DataDirOutcome>)
        ensures
            match data_dir {
                Some(d) => self@.stage.data_dir() == Some(d@),
                None => self@.stage.data_dir() is None,
            },
    {
        match &self.stage {
            Stage::Locating { data_dir } => Some(data_dir),
            Stage::Spawning { data_dir, .. } => Some(data_dir),
            _ => match self.stage.attempt() {
                Some(attempt) => Some(&attempt.data_dir),
                None => None,
            },
        }
    }

    /// The outside work that the run waits for. While the run has not
    /// ended, the shell carries it out and reports the answer to `step`.
    pub fn pending(&self) -> (action: Action)
        ensures
            action@ == self@.stage.pending(),
    {
        match &self.stage {
            Stage::Registering(plugin) => Action::RegisterPlugin(*plugin),
            Stage::AwaitingAppDataDir => Action::QueryAppDataDir,
            Stage::AwaitingCurrentDir => Action::QueryCurrentDir,
            Stage::EnsuringDataDir { base } => Action::EnsureDataDir {
                base: base.clone(),
                subdirectory: String::from_str(DATA_SUBDIRECTORY),
            },
            Stage::Locating { .. } => Action::LocateSidecar {
                executable_id: String::from_str(SIDECAR_ID),
            },
            Stage::Spawning { data_dir, executable } => {
                let config = SidecarConfig::standard(Some(data_dir.path().clone()));
                Action::SpawnDetached(configure(executable.clone(), &config))
            },
            Stage::SidecarAttempted(_) => Action::RegisterPlugin(Plugin::Logging),
            Stage::Ready(_) => Action::Finish,
            Stage::Aborted { plugin, reason, .. } => Action::Abort {
                plugin: *plugin,
                reason: reason.clone(),
            },
        }
    }

    /// Takes the shell's answer to the pending action and moves on.
    ///
    /// An event that does not answer the pending action is not accepted:
    /// the state stays as it is and nothing is logged.
    pub fn step(self, event: Event) -> (transition: Transition)
        ensures
            transition@ == self@.step(event@),
            transition.next@.wf(),
    {
        proof {
            use_type_invariant(&self);
        }
        let config = self.config;
        match self.stage {
            Stage::Registering(plugin) => match event {
                Event::PluginRegistered(done) => {
                    if done == plugin {
                        accepted(config, stage_after_plugin(config, plugin), None)
                    } else {
                        rejected(config, Stage::Registering(plugin))
                    }
                },
                Event::PluginFailed(failed, reason) => {
                    if failed == plugin {
                        accepted(config, Stage::Aborted { plugin, reason, attempt: None }, None)
                    } else {
                        rejected(config, Stage::Registering(plugin))
                    }
                },
                _ => rejected(config, Stage::Registering(plugin)),
            },
            Stage::AwaitingAppDataDir => match event {
                Event::AppDataDirFound(path) => accepted(
                    config,
                    Stage::EnsuringDataDir { base: path },
                    None,
                ),
                Event::AppDataDirUnavailable => accepted(config, Stage::AwaitingCurrentDir, None),
                _ => rejected(config, Stage::AwaitingAppDataDir),
            },
            Stage::AwaitingCurrentDir => match event {
                Event::CurrentDirFound(path) => accepted(
                    config,
                    Stage::EnsuringDataDir { base: fallback_base(Some(path)) },
                    None,
                ),
                Event::CurrentDirUnavailable => accepted(
                    config,
                    Stage::EnsuringDataDir { base: fallback_base(None) },
                    None,
                ),
                _ => rejected(config, Stage::AwaitingCurrentDir),
            },
            Stage::EnsuringDataDir { base } => match event {
                Event::DataDirCreated { path } => {
                    let (data_dir, log) = settle(path, None);
                    accepted(config, Stage::Locating { data_dir }, log)
                },
                Event::DataDirCreationFailed { path, reason } => {
                    let (data_dir, log) = settle(path, Some(reason));
                    accepted(config, Stage::Locating { data_dir }, log)
                },
                _ => rejected(config, Stage::EnsuringDataDir { base }),
            },
            Stage::Locating { data_dir } => match event {
                Event::SidecarLocated(executable) => accepted(
                    config,
                    Stage::Spawning { data_dir, executable },
                    None,
                ),
                Event::SidecarNotFound(error) => {
                    let log = LogEvent::SidecarNotFound { reason: error.reason.clone() };
                    let attempt = Attempt { data_dir, outcome: SpawnOutcome::NotFound(error.reason) };
                    accepted(config, stage_after_attempt(config, attempt), Some(log))
                },
                _ => rejected(config, Stage::Locating { data_dir }),
            },
            Stage::Spawning { data_dir, executable } => match event {
                Event::SidecarSpawned(handle) => {
                    let log = LogEvent::SidecarStarted { data_dir: data_dir.path().clone() };
                    let attempt = Attempt { data_dir, outcome: SpawnOutcome::Started(handle) };
                    accepted(config, stage_after_attempt(config, attempt), Some(log))
                },
                Event::SidecarSpawnFailed(error) => {
                    let log = LogEvent::SpawnFailed { reason: error.reason.clone() };
                    let attempt = Attempt {
                        data_dir,
                        outcome: SpawnOutcome::SpawnFailed(error.reason),
                    };
                    accepted(config, stage_after_attempt(config, attempt), Some(log))
                },
                _ => rejected(config, Stage::Spawning { data_dir, executable }),
            },
            Stage::SidecarAttempted(attempt) => match event {
                Event::PluginRegistered(done) => match done {
                    Plugin::Logging => accepted(config, Stage::Ready(Some(attempt)), None),
                    _ => rejected(config, Stage::SidecarAttempted(attempt)),
                },
                Event::PluginFailed(failed, reason) => match failed {
                    Plugin::Logging => accepted(
                        config,
                        Stage::Aborted { plugin: Plugin::Logging, reason, attempt: Some(attempt) },
                        None,
                    ),
                    _ => rejected(config, Stage::SidecarAttempted(attempt)),
                },
                _ => rejected(config, Stage::SidecarAttempted(attempt)),
            },
            Stage::Ready(attempt) => rejected(config, Stage::Ready(attempt)),
            Stage::Aborted { plugin, reason, attempt } => rejected(
                config,
                Stage::Aborted { plugin, reason, attempt },
            ),
        }
    }
}

fn accepted(config: BootstrapConfig, stage: Stage, log: Option<LogEvent>) -> (transition:
    Transition)
    requires
        (BootstrapView { config, stage: stage@ }).wf(),
    ensures
        transition@ == (TransitionView {
            next: BootstrapView { config, stage: stage@ },
            log: log_of(log),
            accepted: true,
        }),
{
    Transition { next: Bootstrap { config, stage }, log, accepted: true }
}

fn rejected(config: BootstrapConfig, stage: Stage) -> (transition: Transition)
    requires
        (BootstrapView { config, stage: stage@ }).wf(),
    ensures
        transition@ == (TransitionView {
            next: BootstrapView { config, stage: stage@ },
            log: None,
            accepted: false,
        }),
{
    Transition { next: Bootstrap { config, stage }, log: None, accepted: false }
}


} // verus!
