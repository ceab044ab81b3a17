//! What holds of every step and of every run of the startup sequence.

use crate::bootstrap::{after_attempt, AttemptView, BootstrapView, Phase, StageView};
use crate::config::BootstrapConfig;
use crate::data_dir::{base_of, DataDirOutcomeView};
use crate::diagnostics::{count_logged, LogClass, LogEventView, LogLevel};
use crate::protocol::{tally, ActionView, EventKind, EventView, Plugin};
use crate::run::{run_of, RunView};
use crate::supervisor::{
    lemma_backend_port_numeral, EnvVarView, SidecarProcessHandle, SpawnOutcomeView,
};
use vstd::prelude::*;

verus! {

/// How far a stage is along the sequence. Every stage but the two ends
/// waits for one action, and the actions come in this order.
pub open spec fn rank(stage: StageView) -> nat {
    match stage {
        StageView::Registering(plugin) => match plugin {
            Plugin::Filesystem => 0,
            Plugin::Shell => 1,
            Plugin::Updater => 2,
            Plugin::ProcessRelaunch => 3,
            Plugin::Logging => 9,
        },
        StageView::AwaitingAppDataDir => 4,
        StageView::AwaitingCurrentDir => 5,
        StageView::EnsuringDataDir { .. } => 6,
        StageView::Locating { .. } => 7,
        StageView::Spawning { .. } => 8,
        StageView::SidecarAttempted(_) => 9,
        StageView::Ready(_) => 10,
        StageView::Aborted { .. } => 10,
    }
}

/// The place of a phase in the order of phases. The two ends share the last
/// place.
pub open spec fn phase_rank(phase: Phase) -> nat {
    match phase {
        Phase::Init => 0,
        Phase::PluginsRegistered => 1,
        Phase::DataDirResolved => 2,
        Phase::SidecarAttempted(_) => 3,
        Phase::Ready => 4,
        Phase::Aborted => 4,
    }
}

/// Every accepted event takes the run strictly further, and an event that
/// is not accepted changes nothing. So no action is ever asked for twice:
/// nothing is retried.
pub proof fn law_step_progress(state: BootstrapView, event: EventView)
    ensures
        state.step(event).next.config == state.config,
        state.step(event).accepted ==> rank(state.step(event).next.stage) > rank(state.stage),
        !state.step(event).accepted ==> state.step(event).next == state && state.step(
            event,
        ).log is None,
{
}

/// A run begins well formed and every step keeps it so.
pub proof fn law_step_keeps_well_formed(state: BootstrapView, event: EventView)
    requires
        state.wf(),
    ensures
        BootstrapView::start(state.config).wf(),
        state.step(event).next.wf(),
{
}

/// A run never falls back to an earlier phase; in particular there is no
/// way back to the initial phase.
pub proof fn law_phase_never_regresses(state: BootstrapView, event: EventView)
    ensures
        phase_rank(state.step(event).next.stage.phase()) >= phase_rank(state.stage.phase()),
        state.step(event).next.stage.phase() == Phase::Init ==> state.stage.phase() == Phase::Init,
{
}

/// Once a run is ready or has aborted, no event is accepted any more.
pub proof fn law_terminal_is_final(state: BootstrapView, event: EventView)
    requires
        state.stage.is_terminal(),
    ensures
        !state.step(event).accepted,
        state.step(event).next == state,
{
}

/// Once the data directory is settled it stays as it is, and so does the
/// outcome of the attempt to start the sidecar: neither is set a second
/// time.
pub proof fn law_settled_is_final(state: BootstrapView, event: EventView)
    ensures
        state.stage.data_dir() is Some ==> state.step(event).next.stage.data_dir()
            == state.stage.data_dir(),
        state.stage.outcome() is Some ==> state.step(event).next.stage.outcome()
            == state.stage.outcome(),
{
}

/// Nothing that can happen to the data directory stops the run. Whether
/// the directory could be created or not, the path that was reported is
/// kept and the run goes on to look for the sidecar; a failure is logged
/// as one error that gives the reason.
pub proof fn law_data_dir_failure_is_absorbed(
    state: BootstrapView,
    path: Seq<char>,
    reason: Seq<char>,
)
    requires
        state.stage is EnsuringDataDir,
    ensures
        ({
            let failed = state.step(EventView::DataDirCreationFailed { path, reason });
            &&& failed.accepted
            &&& failed.next.stage == StageView::Locating {
                data_dir: DataDirOutcomeView { path, created: false },
            }
            &&& failed.log == Some(LogEventView::DirectoryCreationFailed { reason })
            &&& failed.log->0.level() == LogLevel::Error
        }),
        ({
            let created = state.step(EventView::DataDirCreated { path });
            &&& created.accepted
            &&& created.next.stage == StageView::Locating {
                data_dir: DataDirOutcomeView { path, created: true },
            }
            &&& created.log is None
        }),
{
}

/// The sidecar is always started with the port in its environment. A
/// report of a spawned sidecar is accepted only in answer to a spawn
/// action, and the command of that action sets `DUGOUT_BACKEND_PORT` to
/// `8100`, and after it `DUGOUT_DATA_DIR` to the data directory of the run.
pub proof fn law_spawn_environment(state: BootstrapView, handle: SidecarProcessHandle)
    requires
        state.step(EventView::SidecarSpawned(handle)).accepted,
    ensures
        state.stage is Spawning,
        state.stage.pending() matches ActionView::SpawnDetached(command) && command.env == seq![
            EnvVarView { name: "DUGOUT_BACKEND_PORT"@, value: "8100"@ },
            EnvVarView { name: "DUGOUT_DATA_DIR"@, value: state.stage.data_dir()->0.path },
        ],
{
    lemma_backend_port_numeral();
}

/// The data directory lies below the application data directory where the
/// platform names one, and the working directory is then never asked for.
/// Where the platform names none, it lies below the working directory, or
/// below the empty path where that is unknown too. Either way the next
/// action is to create the subdirectory `data` there.
pub proof fn law_data_dir_base(
    state: BootstrapView,
    preferred: Option<Seq<char>>,
    working_dir: Option<Seq<char>>,
)
    requires
        state.stage is AwaitingAppDataDir,
    ensures
        ({
            let settled = match preferred {
                Some(dir) => state.step(EventView::AppDataDirFound(dir)).next,
                None => {
                    let asked = state.step(EventView::AppDataDirUnavailable).next;
                    match working_dir {
                        Some(dir) => asked.step(EventView::CurrentDirFound(dir)).next,
                        None => asked.step(EventView::CurrentDirUnavailable).next,
                    }
                },
            };
            &&& settled.stage == StageView::EnsuringDataDir { base: base_of(preferred, working_dir) }
            &&& settled.stage.pending() == ActionView::EnsureDataDir {
                base: base_of(preferred, working_dir),
                subdirectory: "data"@,
            }
        }),
        preferred is None ==> state.step(EventView::AppDataDirUnavailable).next.stage.pending()
            == ActionView::QueryCurrentDir,
{
}

/// Whatever comes of the attempt to start the sidecar, the run goes on:
/// each answer to the search for the binary, and each answer to the spawn,
/// is accepted and never aborts the run. The answer that ends the attempt
/// leaves at most the logging plugin to register: without diagnostics the
/// run is ready at once.
pub proof fn law_sidecar_never_stops_startup(state: BootstrapView, event: EventView)
    requires
        state.stage is Locating || state.stage is Spawning,
        state.stage.accepts(event),
    ensures
        !(state.step(event).next.stage is Aborted),
        !(event is SidecarLocated) ==> {
            let next = state.step(event).next;
            &&& next.stage.attempt() is Some
            &&& next.stage.attempt()->0.data_dir == state.stage.data_dir()->0
            &&& next.stage == after_attempt(state.config, next.stage.attempt()->0)
            &&& !state.config.diagnostics ==> next.stage is Ready
            &&& state.config.diagnostics ==> next.stage.pending() == ActionView::RegisterPlugin(
                Plugin::Logging,
            )
        },
{
}

/// A started sidecar is never waited for. When the spawn succeeds, the
/// handle is recorded and that is all: the run is ready at once, or is
/// ready as soon as the logging plugin is registered. No later action
/// names the process.
pub proof fn law_started_sidecar_is_not_awaited(
    state: BootstrapView,
    handle: SidecarProcessHandle,
)
    requires
        state.stage is Spawning,
    ensures
        ({
            let spawned = state.step(EventView::SidecarSpawned(handle));
            let registered = spawned.next.step(EventView::PluginRegistered(Plugin::Logging));
            &&& spawned.accepted
            &&& spawned.next.stage.outcome() == Some(SpawnOutcomeView::Started(handle))
            &&& spawned.log == Some(
                LogEventView::SidecarStarted { data_dir: state.stage.data_dir()->0.path },
            )
            &&& if state.config.diagnostics {
                &&& spawned.next.stage.pending() == ActionView::RegisterPlugin(Plugin::Logging)
                &&& registered.next.stage is Ready
                &&& registered.next.stage.outcome() == Some(SpawnOutcomeView::Started(handle))
            } else {
                spawned.next.stage is Ready
            }
        }),
{
}

/// One if the condition holds, zero if not.
pub open spec fn one_if(condition: bool) -> nat {
    if condition {
        1
    } else {
        0
    }
}

/// The event that is logged when the attempt to start the sidecar ends.
pub open spec fn attempt_log(attempt: AttemptView) -> LogEventView {
    match attempt.outcome {
        SpawnOutcomeView::Started(_) => LogEventView::SidecarStarted {
            data_dir: attempt.data_dir.path,
        },
        SpawnOutcomeView::NotFound(reason) => LogEventView::SidecarNotFound { reason },
        SpawnOutcomeView::SpawnFailed(reason) => LogEventView::SpawnFailed { reason },
    }
}

/// What every run keeps true from its first event to its last: the
/// accepted events, the log and the state tell the same story.
pub open spec fn coherent(config: BootstrapConfig, events: Seq<EventView>, run: RunView) -> bool {
    let stage = run.state.stage;
    let outcome = stage.outcome();
    let data_dir = stage.data_dir();
    &&& run.state.config == config
    &&& run.state.wf()
    &&& run.answered.len() <= rank(stage)
    &&& forall|kind: EventKind| #[trigger] tally(run.answered, kind) <= tally(events, kind)
    &&& tally(run.answered, EventKind::PluginFailed) == one_if(stage is Aborted)
    &&& tally(run.answered, EventKind::DataDirCreated) == one_if(
        data_dir is Some && data_dir->0.created,
    )
    &&& tally(run.answered, EventKind::DataDirCreationFailed) == one_if(
        data_dir is Some && !data_dir->0.created,
    )
    &&& tally(run.answered, EventKind::SidecarLocated) == one_if(
        stage is Spawning || (outcome is Some && !(outcome->0 is NotFound)),
    )
    &&& tally(run.answered, EventKind::SidecarNotFound) == one_if(
        outcome is Some && outcome->0 is NotFound,
    )
    &&& tally(run.answered, EventKind::SidecarSpawned) == one_if(
        outcome is Some && outcome->0 is Started,
    )
    &&& tally(run.answered, EventKind::SidecarSpawnFailed) == one_if(
        outcome is Some && outcome->0 is SpawnFailed,
    )
    &&& count_logged(run.log, LogClass::DirectoryCreationFailed, LogLevel::Error) == tally(
        run.answered,
        EventKind::DataDirCreationFailed,
    )
    &&& count_logged(run.log, LogClass::NotFound, LogLevel::Warn) == tally(
        run.answered,
        EventKind::SidecarNotFound,
    )
    &&& count_logged(run.log, LogClass::Started, LogLevel::Info) == tally(
        run.answered,
        EventKind::SidecarSpawned,
    )
    &&& count_logged(run.log, LogClass::SpawnFailed, LogLevel::Warn) == tally(
        run.answered,
        EventKind::SidecarSpawnFailed,
    )
    &&& run.log.len() == tally(run.answered, EventKind::DataDirCreationFailed) + tally(
        run.answered,
        EventKind::SidecarNotFound,
    ) + tally(run.answered, EventKind::SidecarSpawned) + tally(
        run.answered,
        EventKind::SidecarSpawnFailed,
    )
    &&& stage.attempt() matches Some(attempt) ==> {
        &&& run.log.len() > 0
        &&& run.log.last() == attempt_log(attempt)
    }
    &&& stage matches StageView::Aborted { plugin, reason, attempt } ==> {
        &&& run.answered.len() > 0
        &&& run.answered.last() == EventView::PluginFailed(plugin, reason)
        &&& plugin != Plugin::Logging ==> attempt is None
    }
}

proof fn lemma_tally_push(events: Seq<EventView>, event: EventView, kind: EventKind)
    ensures
        tally(events.push(event), kind) == tally(events, kind) + one_if(event.kind() == kind),
{
    assert(events.push(event).drop_last() =~= events);
}

proof fn lemma_count_logged_push(
    log: Seq<LogEventView>,
    event: LogEventView,
    class: LogClass,
    level: LogLevel,
)
    ensures
        count_logged(log.push(event), class, level) == count_logged(log, class, level) + one_if(
            event.class() == class && event.level() == level,
        ),
{
    assert(log.push(event).drop_last() =~= log);
}

proof fn lemma_step_keeps_coherent(
    config: BootstrapConfig,
    events: Seq<EventView>,
    before: RunView,
    event: EventView,
)
    requires
        coherent(config, events, before),
    ensures
        coherent(
            config,
            events.push(event),
            RunView {
                state: before.state.step(event).next,
                log: match before.state.step(event).log {
                    Some(logged) => before.log.push(logged),
                    None => before.log,
                },
                answered: if before.state.step(event).accepted {
                    before.answered.push(event)
                } else {
                    before.answered
                },
            },
        ),
{
    let transition = before.state.step(event);
    let after = RunView {
        state: transition.next,
        log: match transition.log {
            Some(logged) => before.log.push(logged),
            None => before.log,
        },
        answered: if transition.accepted {
            before.answered.push(event)
        } else {
            before.answered
        },
    };
    assert forall|kind: EventKind| #[trigger]
        tally(after.answered, kind) <= tally(events.push(event), kind) by {
        lemma_tally_push(events, event, kind);
        lemma_tally_push(before.answered, event, kind);
        assert(tally(before.answered, kind) <= tally(events, kind));
    }
    if transition.accepted {
        lemma_tally_push(before.answered, event, EventKind::PluginFailed);
        lemma_tally_push(before.answered, event, EventKind::DataDirCreated);
        lemma_tally_push(before.answered, event, EventKind::DataDirCreationFailed);
        lemma_tally_push(before.answered, event, EventKind::SidecarLocated);
        lemma_tally_push(before.answered, event, EventKind::SidecarNotFound);
        lemma_tally_push(before.answered, event, EventKind::SidecarSpawned);
        lemma_tally_push(before.answered, event, EventKind::SidecarSpawnFailed);
        match transition.log {
            Some(logged) => {
                lemma_count_logged_push(
                    before.log,
                    logged,
                    LogClass::DirectoryCreationFailed,
                    LogLevel::Error,
                );
                lemma_count_logged_push(before.log, logged, LogClass::NotFound, LogLevel::Warn);
                lemma_count_logged_push(before.log, logged, LogClass::Started, LogLevel::Info);
                lemma_count_logged_push(before.log, logged, LogClass::SpawnFailed, LogLevel::Warn);
            },
            None => {},
        }
    }
}

/// Every run is coherent.
pub proof fn lemma_run_coherent(config: BootstrapConfig, events: Seq<EventView>)
    ensures
        coherent(config, events, run_of(config, events)),
    decreases events.len(),
{
    if events.len() == 0 {
    } else {
        lemma_run_coherent(config, events.drop_last());
        lemma_step_keeps_coherent(
            config,
            events.drop_last(),
            run_of(config, events.drop_last()),
            events.last(),
        );
        assert(events.drop_last().push(events.last()) =~= events);
    }
}

proof fn lemma_tally_counts(events: Seq<EventView>, at: int, kind: EventKind)
    requires
        0 <= at < events.len(),
        events[at].kind() == kind,
    ensures
        tally(events, kind) >= 1,
        at < events.len() - 1 && events.last().kind() == kind ==> tally(events, kind) >= 2,
    decreases events.len(),
{
    if at < events.len() - 1 {
        lemma_tally_counts(events.drop_last(), at, kind);
    }
}

/// A run is short: at most ten events are ever accepted, and at most two
/// are logged. Each accepted event answers another action, so each
/// operation is attempted once and once only.
pub proof fn law_run_is_bounded(config: BootstrapConfig, events: Seq<EventView>)
    ensures
        run_of(config, events).answered.len() <= 10,
        run_of(config, events).log.len() <= 2,
        run_of(config, events).state.config == config,
{
    lemma_run_coherent(config, events);
}

/// The sidecar is spawned at most once in a run: at most one answer to a
/// spawn is ever accepted, whatever the shell reports and however often.
/// It is exactly one where the attempt ended with a started process or a
/// failed spawn.
pub proof fn law_single_spawn_attempt(config: BootstrapConfig, events: Seq<EventView>)
    ensures
        ({
            let run = run_of(config, events);
            let outcome = run.state.stage.outcome();
            tally(run.answered, EventKind::SidecarSpawned) + tally(
                run.answered,
                EventKind::SidecarSpawnFailed,
            ) == one_if(outcome is Some && !(outcome->0 is NotFound))
        }),
{
    lemma_run_coherent(config, events);
}

/// The log tells what happened, once each. A data directory that could
/// not be created is logged as one error; a sidecar that was not found, or
/// could not be spawned, as one warning that gives the reason; a started
/// sidecar as one information that gives the data directory. Nothing else
/// is logged.
pub proof fn law_log_reflects_run(config: BootstrapConfig, events: Seq<EventView>)
    ensures
        ({
            let run = run_of(config, events);
            let stage = run.state.stage;
            let failed_dir = one_if(stage.data_dir() is Some && !stage.data_dir()->0.created);
            &&& count_logged(run.log, LogClass::DirectoryCreationFailed, LogLevel::Error)
                == failed_dir
            &&& count_logged(run.log, LogClass::NotFound, LogLevel::Warn) == one_if(
                stage.outcome() is Some && stage.outcome()->0 is NotFound,
            )
            &&& count_logged(run.log, LogClass::SpawnFailed, LogLevel::Warn) == one_if(
                stage.outcome() is Some && stage.outcome()->0 is SpawnFailed,
            )
            &&& count_logged(run.log, LogClass::Started, LogLevel::Info) == one_if(
                stage.outcome() is Some && stage.outcome()->0 is Started,
            )
            &&& run.log.len() == failed_dir + one_if(stage.outcome() is Some)
            &&& stage.attempt() matches Some(attempt) ==> run.log.last() == attempt_log(attempt)
        }),
{
    lemma_run_coherent(config, events);
}

/// A missing sidecar does not keep the application from starting. In every
/// run in which no plugin fails to register and the search for the binary
/// is answered with "not found", exactly one warning of that class is
/// logged, and the run is ready: at once, or, with diagnostics, as soon as
/// the logging plugin is registered.
pub proof fn law_missing_sidecar_reaches_ready(config: BootstrapConfig, events: Seq<EventView>)
    requires
        tally(events, EventKind::PluginFailed) == 0,
        tally(run_of(config, events).answered, EventKind::SidecarNotFound) >= 1,
    ensures
        ({
            let run = run_of(config, events);
            let stage = run.state.stage;
            &&& count_logged(run.log, LogClass::NotFound, LogLevel::Warn) == 1
            &&& stage.outcome() matches Some(outcome) && outcome is NotFound
            &&& stage is Ready || stage is SidecarAttempted
            &&& stage is SidecarAttempted ==> {
                &&& config.diagnostics
                &&& stage.pending() == ActionView::RegisterPlugin(Plugin::Logging)
                &&& run.state.step(EventView::PluginRegistered(Plugin::Logging)).next.stage
                    is Ready
            }
        }),
{
    lemma_run_coherent(config, events);
    let run = run_of(config, events);
    assert(tally(run.answered, EventKind::PluginFailed) <= tally(events, EventKind::PluginFailed));
}

/// A run that is ready has made its one attempt to start the sidecar
/// exactly where the platform has a sidecar: it then has an outcome on
/// record, and a data directory; elsewhere it has neither.
pub proof fn law_ready_run_has_its_outcome(config: BootstrapConfig, events: Seq<EventView>)
    requires
        run_of(config, events).state.stage is Ready,
    ensures
        run_of(config, events).state.stage.outcome() is Some <==> config.capabilities.has_sidecar,
        run_of(config, events).state.stage.data_dir() is Some <==> config.capabilities.has_sidecar,
{
    lemma_run_coherent(config, events);
}

/// A core plugin that cannot be registered ends the run before anything is
/// done about the sidecar. In every run in which the registration of the
/// file system, shell, updater or relaunch plugin is answered with a
/// failure, the run has aborted on that plugin with that reason, no data
/// directory was settled, and no search for the sidecar and no spawn was
/// ever answered.
pub proof fn law_core_plugin_failure_aborts_early(
    config: BootstrapConfig,
    events: Seq<EventView>,
    at: int,
)
    requires
        0 <= at < run_of(config, events).answered.len(),
        run_of(config, events).answered[at] matches EventView::PluginFailed(plugin, _) && plugin
            != Plugin::Logging,
    ensures
        ({
            let run = run_of(config, events);
            let stage = run.state.stage;
            &&& run.answered[at] matches EventView::PluginFailed(plugin, reason) && stage
                == (StageView::Aborted { plugin, reason, attempt: None })
            &&& stage.phase() == Phase::Aborted
            &&& stage.data_dir() is None
            &&& stage.outcome() is None
            &&& tally(run.answered, EventKind::DataDirCreated) == 0
            &&& tally(run.answered, EventKind::DataDirCreationFailed) == 0
            &&& tally(run.answered, EventKind::SidecarLocated) == 0
            &&& tally(run.answered, EventKind::SidecarNotFound) == 0
            &&& tally(run.answered, EventKind::SidecarSpawned) == 0
            &&& tally(run.answered, EventKind::SidecarSpawnFailed) == 0
            &&& run.log.len() == 0
        }),
{
    lemma_run_coherent(config, events);
    let run = run_of(config, events);
    lemma_tally_counts(run.answered, at, EventKind::PluginFailed);
}

/// Only a plugin stops a run: a run has aborted exactly when the
/// registration of a plugin was answered with a failure.
pub proof fn law_only_plugins_abort(config: BootstrapConfig, events: Seq<EventView>)
    ensures
        run_of(config, events).state.stage is Aborted <==> tally(
            run_of(config, events).answered,
            EventKind::PluginFailed,
        ) == 1,
        tally(events, EventKind::PluginFailed) == 0 ==> !(run_of(config, events).state.stage
            is Aborted),
{
    lemma_run_coherent(config, events);
    let run = run_of(config, events);
    assert(tally(run.answered, EventKind::PluginFailed) <= tally(events, EventKind::PluginFailed));
}


} // verus!
