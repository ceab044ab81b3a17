//! Single steps, rejected events, and replayed runs.

use dugout_supervisor::bootstrap::{Bootstrap, Phase, Stage};
use dugout_supervisor::config::{BootstrapConfig, PlatformCapabilities};
use dugout_supervisor::diagnostics::{LogClass, LogEvent};
use dugout_supervisor::protocol::{Action, Event, EventKind, Plugin};
use dugout_supervisor::supervisor::{
    ExecutableRef, NotFoundError, SidecarProcessHandle, SpawnError, SpawnOutcome,
};

fn desktop(diagnostics: bool) -> BootstrapConfig {
    BootstrapConfig::new(PlatformCapabilities::desktop(), diagnostics)
}

fn located() -> Event {
    Event::SidecarLocated(ExecutableRef::new("backend-sidecar".to_string()))
}

fn happy_run() -> Vec<Event> {
    vec![
        Event::PluginRegistered(Plugin::Filesystem),
        Event::PluginRegistered(Plugin::Shell),
        Event::PluginRegistered(Plugin::Updater),
        Event::PluginRegistered(Plugin::ProcessRelaunch),
        Event::AppDataDirFound("/d".to_string()),
        Event::DataDirCreated { path: "/d/data".to_string() },
        located(),
        Event::SidecarSpawned(SidecarProcessHandle { pid: 99 }),
        Event::PluginRegistered(Plugin::Logging),
    ]
}

#[test]
fn start_waits_for_the_file_system_plugin() {
    let state = Bootstrap::start(desktop(false));
    assert_eq!(state.stage(), &Stage::Registering(Plugin::Filesystem));
    assert_eq!(state.phase(), Phase::Init);
    assert_eq!(state.pending(), Action::RegisterPlugin(Plugin::Filesystem));
    assert!(!state.is_ready());
    assert!(!state.is_terminal());
    assert_eq!(state.outcome(), None);
    assert_eq!(state.data_dir(), None);
}

#[test]
fn answer_for_another_plugin_is_rejected() {
    let state = Bootstrap::start(desktop(false));
    let transition = state.step(Event::PluginRegistered(Plugin::Shell));
    assert!(!transition.accepted);
    assert!(transition.log.is_none());
    assert_eq!(transition.next, Bootstrap::start(desktop(false)));

    let transition =
        transition.next.step(Event::PluginFailed(Plugin::Logging, "not yet".to_string()));
    assert!(!transition.accepted);
    assert_eq!(transition.next.phase(), Phase::Init);
}

#[test]
fn answer_out_of_turn_is_rejected_and_logs_nothing() {
    let state = Bootstrap::start(desktop(false));
    for event in [
        Event::AppDataDirFound("/d".to_string()),
        Event::AppDataDirUnavailable,
        Event::CurrentDirFound("/d".to_string()),
        Event::CurrentDirUnavailable,
        Event::DataDirCreated { path: "/d/data".to_string() },
        Event::DataDirCreationFailed { path: "/d/data".to_string(), reason: "r".to_string() },
        located(),
        Event::SidecarNotFound(NotFoundError { reason: "r".to_string() }),
        Event::SidecarSpawned(SidecarProcessHandle { pid: 1 }),
        Event::SidecarSpawnFailed(SpawnError { reason: "r".to_string() }),
    ] {
        let transition = Bootstrap::start(desktop(false)).step(event);
        assert!(!transition.accepted);
        assert!(transition.log.is_none());
        assert_eq!(transition.next, state);
    }
}

#[test]
fn spawn_answer_is_rejected_before_the_binary_is_located() {
    let report = Bootstrap::start(desktop(false)).replay(&happy_run()[..6].to_vec());
    assert_eq!(report.accepted, 6);
    assert_eq!(
        report.state.pending(),
        Action::LocateSidecar { executable_id: "backend-sidecar".to_string() }
    );
    let transition = report.state.step(Event::SidecarSpawned(SidecarProcessHandle { pid: 5 }));
    assert!(!transition.accepted);
    assert_eq!(transition.next.outcome(), None);
}

#[test]
fn replay_of_a_whole_run() {
    let report = Bootstrap::start(desktop(true)).replay(&happy_run());
    assert_eq!(report.accepted, 9);
    assert!(report.state.is_ready());
    assert_eq!(
        report.state.outcome(),
        Some(&SpawnOutcome::Started(SidecarProcessHandle { pid: 99 }))
    );
    assert_eq!(report.log, vec![LogEvent::SidecarStarted { data_dir: "/d/data".to_string() }]);
}

#[test]
fn replay_agrees_with_stepping() {
    let events = happy_run();
    let mut state = Bootstrap::start(desktop(true));
    let mut log = Vec::new();
    let mut accepted = 0;
    for event in events.iter().cloned() {
        let transition = state.step(event);
        if transition.accepted {
            accepted += 1;
        }
        log.extend(transition.log);
        state = transition.next;
    }
    let report = Bootstrap::start(desktop(true)).replay(&events);
    assert_eq!(report.state, state);
    assert_eq!(report.log, log);
    assert_eq!(report.accepted, accepted);
}

#[test]
fn replay_of_nothing_changes_nothing() {
    let report = Bootstrap::start(desktop(false)).replay(&Vec::new());
    assert_eq!(report.state, Bootstrap::start(desktop(false)));
    assert!(report.log.is_empty());
    assert_eq!(report.accepted, 0);
}

#[test]
fn repeated_answers_are_not_accepted_twice() {
    // Every event twice: the second of each pair answers nothing.
    let mut events = Vec::new();
    for event in happy_run() {
        events.push(event.clone());
        events.push(event);
    }
    let report = Bootstrap::start(desktop(true)).replay(&events);
    assert_eq!(report.accepted, 9);
    assert!(report.state.is_ready());
    assert_eq!(report.log.len(), 1);
}

#[test]
fn second_spawn_answer_does_not_change_the_outcome() {
    let mut events = happy_run();
    events.truncate(7);
    events.push(Event::SidecarSpawnFailed(SpawnError { reason: "EAGAIN".to_string() }));
    events.push(Event::SidecarSpawned(SidecarProcessHandle { pid: 3 }));
    let report = Bootstrap::start(desktop(false)).replay(&events);
    assert_eq!(report.accepted, 8);
    assert_eq!(report.state.outcome(), Some(&SpawnOutcome::SpawnFailed("EAGAIN".to_string())));
    assert_eq!(report.log.len(), 1);
    assert_eq!(report.log[0].class(), LogClass::SpawnFailed);
    assert!(report.state.is_ready());
}

#[test]
fn longest_run_accepts_ten_events_and_logs_two() {
    let events = vec![
        Event::PluginRegistered(Plugin::Filesystem),
        Event::PluginRegistered(Plugin::Shell),
        Event::PluginRegistered(Plugin::Updater),
        Event::PluginRegistered(Plugin::ProcessRelaunch),
        Event::AppDataDirUnavailable,
        Event::CurrentDirFound("/w".to_string()),
        Event::DataDirCreationFailed { path: "/w/data".to_string(), reason: "denied".to_string() },
        located(),
        Event::SidecarSpawnFailed(SpawnError { reason: "denied too".to_string() }),
        Event::PluginRegistered(Plugin::Logging),
        Event::PluginRegistered(Plugin::Logging),
    ];
    let report = Bootstrap::start(desktop(true)).replay(&events);
    assert_eq!(report.accepted, 10);
    assert!(report.state.is_ready());
    assert_eq!(
        report.log,
        vec![
            LogEvent::DirectoryCreationFailed { reason: "denied".to_string() },
            LogEvent::SpawnFailed { reason: "denied too".to_string() },
        ]
    );
}

#[test]
fn phases_are_passed_in_order() {
    let mut state = Bootstrap::start(desktop(true));
    let mut phases = vec![state.phase()];
    for event in happy_run() {
        state = state.step(event).next;
        if phases.last() != Some(&state.phase()) {
            phases.push(state.phase());
        }
    }
    assert_eq!(
        phases,
        vec![
            Phase::Init,
            Phase::PluginsRegistered,
            Phase::DataDirResolved,
            Phase::SidecarAttempted(dugout_supervisor::supervisor::OutcomeKind::Started),
            Phase::Ready,
        ]
    );
}

#[test]
fn events_from_results() {
    assert_eq!(
        Event::from_locate(Ok(ExecutableRef::new("backend-sidecar".to_string()))),
        located()
    );
    assert_eq!(
        Event::from_locate(Err(NotFoundError { reason: "gone".to_string() })),
        Event::SidecarNotFound(NotFoundError { reason: "gone".to_string() })
    );
    assert_eq!(
        Event::from_spawn(Ok(SidecarProcessHandle { pid: 12 })),
        Event::SidecarSpawned(SidecarProcessHandle { pid: 12 })
    );
    assert_eq!(
        Event::from_spawn(Err(SpawnError { reason: "no".to_string() })),
        Event::SidecarSpawnFailed(SpawnError { reason: "no".to_string() })
    );
    assert_eq!(
        Event::from_registration(Plugin::Updater, None),
        Event::PluginRegistered(Plugin::Updater)
    );
    assert_eq!(
        Event::from_registration(Plugin::Updater, Some("why".to_string())),
        Event::PluginFailed(Plugin::Updater, "why".to_string())
    );
}

#[test]
fn kinds_of_events() {
    assert_eq!(Event::AppDataDirUnavailable.kind(), EventKind::AppDataDirUnavailable);
    assert_eq!(located().kind(), EventKind::SidecarLocated);
    assert_eq!(
        Event::PluginFailed(Plugin::Shell, String::new()).kind(),
        EventKind::PluginFailed
    );
    assert_eq!(
        Event::DataDirCreationFailed { path: String::new(), reason: String::new() }.kind(),
        EventKind::DataDirCreationFailed
    );
}

#[test]
fn clone_of_an_event_is_equal() {
    for event in happy_run() {
        assert_eq!(event.clone(), event);
    }
}
