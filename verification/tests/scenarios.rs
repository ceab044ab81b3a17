//! Whole startups, played through event by event.

use dugout_supervisor::bootstrap::{Attempt, Bootstrap, Phase, Stage};
use dugout_supervisor::config::{BootstrapConfig, PlatformCapabilities};
use dugout_supervisor::data_dir::DataDirOutcome;
use dugout_supervisor::diagnostics::{LogClass, LogEvent, LogLevel};
use dugout_supervisor::protocol::{Action, Event, Plugin};
use dugout_supervisor::supervisor::{
    EnvVar, ExecutableRef, NotFoundError, OutcomeKind, SidecarProcessHandle, SpawnError,
    SpawnOutcome,
};

fn desktop(diagnostics: bool) -> BootstrapConfig {
    BootstrapConfig::new(PlatformCapabilities::desktop(), diagnostics)
}

fn var(name: &str, value: &str) -> EnvVar {
    EnvVar { name: name.to_string(), value: value.to_string() }
}

/// Feeds one event, insists that it is accepted, and collects what it logs.
fn feed(state: Bootstrap, event: Event, log: &mut Vec<LogEvent>) -> Bootstrap {
    let transition = state.step(event);
    assert!(transition.accepted);
    if let Some(event) = transition.log {
        log.push(event);
    }
    transition.next
}

/// Registers the four core plugins of a desktop run.
fn through_core_plugins(mut state: Bootstrap, log: &mut Vec<LogEvent>) -> Bootstrap {
    for plugin in [Plugin::Filesystem, Plugin::Shell, Plugin::Updater, Plugin::ProcessRelaunch] {
        assert_eq!(state.pending(), Action::RegisterPlugin(plugin));
        assert_eq!(state.phase(), Phase::Init);
        state = feed(state, Event::PluginRegistered(plugin), log);
    }
    state
}

/// Settles the data directory in the preferred place.
fn through_data_dir(mut state: Bootstrap, log: &mut Vec<LogEvent>) -> Bootstrap {
    assert_eq!(state.pending(), Action::QueryAppDataDir);
    state = feed(state, Event::AppDataDirFound("/home/u/.local/share/dugout".to_string()), log);
    assert_eq!(
        state.pending(),
        Action::EnsureDataDir {
            base: "/home/u/.local/share/dugout".to_string(),
            subdirectory: "data".to_string(),
        }
    );
    feed(
        state,
        Event::DataDirCreated { path: "/home/u/.local/share/dugout/data".to_string() },
        log,
    )
}

#[test]
fn scenario_spawn_refused_is_logged_and_startup_completes() {
    let mut log = Vec::new();
    let mut state = Bootstrap::start(desktop(false));
    state = through_core_plugins(state, &mut log);
    state = through_data_dir(state, &mut log);
    state = feed(
        state,
        Event::SidecarLocated(ExecutableRef::new("backend-sidecar".to_string())),
        &mut log,
    );
    assert!(matches!(state.pending(), Action::SpawnDetached(_)));
    state = feed(
        state,
        Event::SidecarSpawnFailed(SpawnError {
            reason: "Permission denied (os error 13)".to_string(),
        }),
        &mut log,
    );

    assert_eq!(
        state.outcome(),
        Some(&SpawnOutcome::SpawnFailed("Permission denied (os error 13)".to_string()))
    );
    assert!(state.is_ready());
    assert_eq!(state.phase(), Phase::Ready);
    assert_eq!(state.pending(), Action::Finish);
    assert_eq!(log.len(), 1);
    assert_eq!(log[0].level(), LogLevel::Warn);
    assert_eq!(log[0].class(), LogClass::SpawnFailed);
    assert!(log[0].message().contains("Permission denied (os error 13)"));
    assert_eq!(
        log[0].message(),
        "Failed to spawn backend sidecar: Permission denied (os error 13). \
         AI features will be unavailable."
    );
}

#[test]
fn scenario_fallback_to_working_directory() {
    let mut log = Vec::new();
    let mut state = Bootstrap::start(desktop(false));
    state = through_core_plugins(state, &mut log);
    assert_eq!(state.phase(), Phase::PluginsRegistered);

    state = feed(state, Event::AppDataDirUnavailable, &mut log);
    assert_eq!(state.pending(), Action::QueryCurrentDir);
    state = feed(state, Event::CurrentDirFound("/srv/work".to_string()), &mut log);
    assert_eq!(
        state.pending(),
        Action::EnsureDataDir { base: "/srv/work".to_string(), subdirectory: "data".to_string() }
    );
    state = feed(state, Event::DataDirCreated { path: "/srv/work/data".to_string() }, &mut log);
    assert_eq!(state.phase(), Phase::DataDirResolved);
    assert_eq!(state.data_dir(), Some(&DataDirOutcome::new("/srv/work/data".to_string(), true)));
    assert_eq!(
        state.pending(),
        Action::LocateSidecar { executable_id: "backend-sidecar".to_string() }
    );

    state = feed(
        state,
        Event::SidecarLocated(ExecutableRef::new("backend-sidecar".to_string())),
        &mut log,
    );
    match state.pending() {
        Action::SpawnDetached(command) => {
            assert_eq!(command.executable().executable_id(), "backend-sidecar");
            assert_eq!(
                command.env(),
                &vec![
                    var("DUGOUT_BACKEND_PORT", "8100"),
                    var("DUGOUT_DATA_DIR", "/srv/work/data"),
                ]
            );
        }
        other => panic!("the spawn should be pending, not {:?}", other),
    }
    assert!(log.is_empty());
}

#[test]
fn scenario_sidecar_starts_and_is_left_alone() {
    let mut log = Vec::new();
    let mut state = Bootstrap::start(desktop(false));
    state = through_core_plugins(state, &mut log);
    state = through_data_dir(state, &mut log);
    state = feed(
        state,
        Event::SidecarLocated(ExecutableRef::new("backend-sidecar".to_string())),
        &mut log,
    );
    state = feed(state, Event::SidecarSpawned(SidecarProcessHandle { pid: 4242 }), &mut log);

    assert_eq!(
        state.outcome(),
        Some(&SpawnOutcome::Started(SidecarProcessHandle { pid: 4242 }))
    );
    assert_eq!(state.outcome().map(|outcome| outcome.kind()), Some(OutcomeKind::Started));
    // Nothing is left to do: no action names the process again.
    assert!(state.is_ready());
    assert!(state.is_terminal());
    assert_eq!(state.pending(), Action::Finish);
    assert_eq!(log.len(), 1);
    assert_eq!(log[0].level(), LogLevel::Info);
    assert_eq!(log[0].class(), LogClass::Started);
    assert_eq!(
        log[0].message(),
        "Backend sidecar started successfully (Data: \"/home/u/.local/share/dugout/data\")"
    );

    // Whatever is reported now, the run stays as it is.
    let late = state.step(Event::SidecarSpawnFailed(SpawnError { reason: "late".to_string() }));
    assert!(!late.accepted);
    assert!(late.log.is_none());
    assert_eq!(
        late.next.outcome(),
        Some(&SpawnOutcome::Started(SidecarProcessHandle { pid: 4242 }))
    );
    assert!(late.next.is_ready());
}

#[test]
fn scenario_plugin_failure_aborts_before_the_data_directory() {
    let mut log = Vec::new();
    let mut state = Bootstrap::start(desktop(true));
    assert_eq!(state.pending(), Action::RegisterPlugin(Plugin::Filesystem));
    state = feed(
        state,
        Event::PluginFailed(Plugin::Filesystem, "scope is invalid".to_string()),
        &mut log,
    );

    assert_eq!(state.phase(), Phase::Aborted);
    assert!(state.is_terminal());
    assert!(!state.is_ready());
    assert_eq!(
        state.pending(),
        Action::Abort { plugin: Plugin::Filesystem, reason: "scope is invalid".to_string() }
    );
    assert_eq!(state.data_dir(), None);
    assert_eq!(state.outcome(), None);
    assert!(log.is_empty());

    // No later answer starts the sidecar after all.
    for event in [
        Event::PluginRegistered(Plugin::Filesystem),
        Event::AppDataDirFound("/x".to_string()),
        Event::SidecarLocated(ExecutableRef::new("backend-sidecar".to_string())),
        Event::SidecarSpawned(SidecarProcessHandle { pid: 1 }),
    ] {
        let transition = state.step(event);
        assert!(!transition.accepted);
        assert!(transition.log.is_none());
        state = transition.next;
        assert_eq!(state.phase(), Phase::Aborted);
        assert_eq!(state.outcome(), None);
    }
}

#[test]
fn missing_sidecar_still_reaches_ready_with_one_warning() {
    for diagnostics in [false, true] {
        let mut log = Vec::new();
        let mut state = Bootstrap::start(desktop(diagnostics));
        state = through_core_plugins(state, &mut log);
        state = through_data_dir(state, &mut log);
        state = feed(
            state,
            Event::SidecarNotFound(NotFoundError { reason: "no such file".to_string() }),
            &mut log,
        );
        assert_eq!(state.outcome(), Some(&SpawnOutcome::NotFound("no such file".to_string())));
        if diagnostics {
            assert_eq!(state.phase(), Phase::SidecarAttempted(OutcomeKind::NotFound));
            assert_eq!(state.pending(), Action::RegisterPlugin(Plugin::Logging));
            state = feed(state, Event::PluginRegistered(Plugin::Logging), &mut log);
        }
        assert!(state.is_ready());
        assert_eq!(state.outcome(), Some(&SpawnOutcome::NotFound("no such file".to_string())));

        let warnings: Vec<&LogEvent> = log
            .iter()
            .filter(|event| event.class() == LogClass::NotFound && event.level() == LogLevel::Warn)
            .collect();
        assert_eq!(warnings.len(), 1);
        assert_eq!(log.len(), 1);
        assert_eq!(
            warnings[0].message(),
            "Backend sidecar binary not found: no such file. AI features will be unavailable."
        );
    }
}

#[test]
fn data_directory_that_cannot_be_created_is_logged_and_kept() {
    let mut log = Vec::new();
    let mut state = Bootstrap::start(desktop(false));
    state = through_core_plugins(state, &mut log);
    state = feed(state, Event::AppDataDirFound("/ro".to_string()), &mut log);
    state = feed(
        state,
        Event::DataDirCreationFailed {
            path: "/ro/data".to_string(),
            reason: "Read-only file system (os error 30)".to_string(),
        },
        &mut log,
    );

    assert_eq!(log.len(), 1);
    assert_eq!(log[0].level(), LogLevel::Error);
    assert_eq!(log[0].class(), LogClass::DirectoryCreationFailed);
    assert_eq!(
        log[0].message(),
        "Failed to create data directory: Read-only file system (os error 30)"
    );
    let data_dir = state.data_dir().expect("the data directory is settled");
    assert_eq!(data_dir.path(), "/ro/data");
    assert!(!data_dir.path().is_empty());
    assert!(!data_dir.created());
    // Startup goes on to the sidecar, with the path as it is.
    assert_eq!(state.phase(), Phase::DataDirResolved);
    state = feed(
        state,
        Event::SidecarLocated(ExecutableRef::new("backend-sidecar".to_string())),
        &mut log,
    );
    match state.pending() {
        Action::SpawnDetached(command) => {
            assert_eq!(command.env()[1], var("DUGOUT_DATA_DIR", "/ro/data"));
        }
        other => panic!("the spawn should be pending, not {:?}", other),
    }
}

#[test]
fn unknown_working_directory_falls_back_to_the_empty_path() {
    let mut log = Vec::new();
    let mut state = Bootstrap::start(desktop(false));
    state = through_core_plugins(state, &mut log);
    state = feed(state, Event::AppDataDirUnavailable, &mut log);
    state = feed(state, Event::CurrentDirUnavailable, &mut log);
    assert_eq!(
        state.pending(),
        Action::EnsureDataDir { base: String::new(), subdirectory: "data".to_string() }
    );
    state = feed(state, Event::DataDirCreated { path: "data".to_string() }, &mut log);
    assert_eq!(state.data_dir(), Some(&DataDirOutcome::new("data".to_string(), true)));
}

#[test]
fn every_spawn_carries_the_port() {
    for (found, reported) in [
        (Event::AppDataDirFound("/a".to_string()), "/a/data"),
        (Event::AppDataDirFound(String::new()), "data"),
        (Event::AppDataDirFound("C:\\Users\\u\\AppData".to_string()), "C:\\Users\\u\\AppData\\data"),
    ] {
        let mut log = Vec::new();
        let mut state = Bootstrap::start(desktop(true));
        state = through_core_plugins(state, &mut log);
        state = feed(state, found, &mut log);
        state = feed(state, Event::DataDirCreated { path: reported.to_string() }, &mut log);
        state = feed(
            state,
            Event::SidecarLocated(ExecutableRef::new("backend-sidecar".to_string())),
            &mut log,
        );
        match state.pending() {
            Action::SpawnDetached(command) => {
                assert!(command.env().contains(&var("DUGOUT_BACKEND_PORT", "8100")));
                assert_eq!(command.env()[0], var("DUGOUT_BACKEND_PORT", "8100"));
                assert_eq!(command.env().len(), 2);
            }
            other => panic!("the spawn should be pending, not {:?}", other),
        }
    }
}

#[test]
fn started_sidecar_leaves_only_the_logging_plugin() {
    let mut log = Vec::new();
    let mut state = Bootstrap::start(desktop(true));
    state = through_core_plugins(state, &mut log);
    state = through_data_dir(state, &mut log);
    state = feed(
        state,
        Event::SidecarLocated(ExecutableRef::new("backend-sidecar".to_string())),
        &mut log,
    );
    state = feed(state, Event::SidecarSpawned(SidecarProcessHandle { pid: 7 }), &mut log);
    assert_eq!(state.phase(), Phase::SidecarAttempted(OutcomeKind::Started));
    assert_eq!(state.pending(), Action::RegisterPlugin(Plugin::Logging));
    assert!(!state.is_terminal());
    state = feed(state, Event::PluginRegistered(Plugin::Logging), &mut log);
    assert_eq!(
        state.stage(),
        &Stage::Ready(Some(Attempt {
            data_dir: DataDirOutcome::new("/home/u/.local/share/dugout/data".to_string(), true),
            outcome: SpawnOutcome::Started(SidecarProcessHandle { pid: 7 }),
        }))
    );
}

#[test]
fn logging_plugin_failure_is_fatal_after_the_attempt() {
    let mut log = Vec::new();
    let mut state = Bootstrap::start(desktop(true));
    state = through_core_plugins(state, &mut log);
    state = through_data_dir(state, &mut log);
    state = feed(
        state,
        Event::SidecarNotFound(NotFoundError { reason: "absent".to_string() }),
        &mut log,
    );
    state = feed(
        state,
        Event::PluginFailed(Plugin::Logging, "logger already set".to_string()),
        &mut log,
    );
    assert_eq!(state.phase(), Phase::Aborted);
    assert_eq!(
        state.pending(),
        Action::Abort { plugin: Plugin::Logging, reason: "logger already set".to_string() }
    );
    // The attempt stays on record.
    assert_eq!(state.outcome(), Some(&SpawnOutcome::NotFound("absent".to_string())));
    assert_eq!(log.len(), 1);
}

#[test]
fn each_core_plugin_failure_aborts_with_its_reason() {
    let order = [Plugin::Filesystem, Plugin::Shell, Plugin::Updater, Plugin::ProcessRelaunch];
    for failing in 0..order.len() {
        let mut log = Vec::new();
        let mut state = Bootstrap::start(desktop(false));
        for plugin in &order[..failing] {
            state = feed(state, Event::PluginRegistered(*plugin), &mut log);
        }
        state = feed(state, Event::PluginFailed(order[failing], "boom".to_string()), &mut log);
        assert_eq!(
            state.stage(),
            &Stage::Aborted { plugin: order[failing], reason: "boom".to_string(), attempt: None }
        );
        assert_eq!(
            state.pending(),
            Action::Abort { plugin: order[failing], reason: "boom".to_string() }
        );
        assert!(log.is_empty());
    }
}

#[test]
fn mobile_registers_two_plugins_and_is_ready() {
    let mut log = Vec::new();
    let config = BootstrapConfig::new(PlatformCapabilities::mobile(), false);
    let mut state = Bootstrap::start(config);
    assert_eq!(state.config(), config);
    state = feed(state, Event::PluginRegistered(Plugin::Filesystem), &mut log);
    state = feed(state, Event::PluginRegistered(Plugin::Shell), &mut log);
    assert_eq!(state.stage(), &Stage::Ready(None));
    assert_eq!(state.pending(), Action::Finish);
    assert_eq!(state.outcome(), None);
    assert_eq!(state.data_dir(), None);
    assert!(log.is_empty());
}

#[test]
fn mobile_with_diagnostics_registers_logging_last() {
    let mut log = Vec::new();
    let mut state =
        Bootstrap::start(BootstrapConfig::new(PlatformCapabilities::mobile(), true));
    state = feed(state, Event::PluginRegistered(Plugin::Filesystem), &mut log);
    state = feed(state, Event::PluginRegistered(Plugin::Shell), &mut log);
    assert_eq!(state.phase(), Phase::PluginsRegistered);
    assert_eq!(state.pending(), Action::RegisterPlugin(Plugin::Logging));
    state = feed(state, Event::PluginRegistered(Plugin::Logging), &mut log);
    assert!(state.is_ready());
    assert_eq!(state.outcome(), None);
}

#[test]
fn sidecar_without_updater_skips_the_update_plugins() {
    let mut log = Vec::new();
    let caps = PlatformCapabilities { has_sidecar: true, has_updater: false };
    let mut state = Bootstrap::start(BootstrapConfig::new(caps, false));
    state = feed(state, Event::PluginRegistered(Plugin::Filesystem), &mut log);
    state = feed(state, Event::PluginRegistered(Plugin::Shell), &mut log);
    assert_eq!(state.pending(), Action::QueryAppDataDir);
}

#[test]
fn updater_without_sidecar_skips_the_sidecar() {
    let mut log = Vec::new();
    let caps = PlatformCapabilities { has_sidecar: false, has_updater: true };
    let mut state = Bootstrap::start(BootstrapConfig::new(caps, false));
    state = feed(state, Event::PluginRegistered(Plugin::Filesystem), &mut log);
    state = feed(state, Event::PluginRegistered(Plugin::Shell), &mut log);
    assert_eq!(state.pending(), Action::RegisterPlugin(Plugin::Updater));
    state = feed(state, Event::PluginRegistered(Plugin::Updater), &mut log);
    assert_eq!(state.pending(), Action::RegisterPlugin(Plugin::ProcessRelaunch));
    state = feed(state, Event::PluginRegistered(Plugin::ProcessRelaunch), &mut log);
    assert!(state.is_ready());
    assert_eq!(state.outcome(), None);
}
