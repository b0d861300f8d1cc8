use cargo_serve::error::Error;
use cargo_serve::supervisor::{Supervisor, SupervisorAction, SupervisorEvent, SupervisorPhase};

/// A supervisor that started `id` and is watching.
fn watching(id: u64) -> Supervisor {
    let mut s = Supervisor::new(false);
    s.step(SupervisorEvent::BuildSucceeded {
        binary: "/s/app".into(),
    });
    s.step(SupervisorEvent::ServerStarted { id });
    s
}

#[test]
fn initial_build_starts_the_first_server() {
    let mut s = Supervisor::new(false);
    let action = s.step(SupervisorEvent::BuildSucceeded {
        binary: "/s/app".into(),
    });
    assert!(
        matches!(action, SupervisorAction::StartServer { ref binary, replacing: None } if binary == "/s/app")
    );
    s.step(SupervisorEvent::ServerStarted { id: 3 });
    assert_eq!(s.current, Some(3));
    assert_eq!(s.phase, SupervisorPhase::Watching);
}

#[test]
fn initial_build_failure_is_fatal_without_eager_start() {
    let mut s = Supervisor::new(false);
    let action = s.step(SupervisorEvent::BuildFailed {
        error: Error::BuildFailed,
    });
    assert!(matches!(action, SupervisorAction::Abort { error: Error::BuildFailed }));
    assert!(s.is_stopped());
}

#[test]
fn eager_start_serves_a_stale_binary_or_waits() {
    let mut s = Supervisor::new(true);
    let action = s.step(SupervisorEvent::BuildFailed {
        error: Error::CheckFailed,
    });
    assert!(matches!(action, SupervisorAction::LocateStaleBinary { .. }));
    let action = s.step(SupervisorEvent::StaleBinary {
        found: Some("/s/old".into()),
    });
    assert!(matches!(action, SupervisorAction::StartServer { replacing: None, .. }));

    let mut none = Supervisor::new(true);
    none.step(SupervisorEvent::BuildFailed {
        error: Error::CheckFailed,
    });
    let action = none.step(SupervisorEvent::StaleBinary { found: None });
    assert!(matches!(action, SupervisorAction::WaitForBuild));
    assert_eq!(none.current, None);
    assert!(matches!(none.step(SupervisorEvent::FileChanged), SupervisorAction::Build));
}

#[test]
fn first_server_failing_to_start_is_fatal() {
    let mut s = Supervisor::new(false);
    s.step(SupervisorEvent::BuildSucceeded {
        binary: "/s/app".into(),
    });
    let action = s.step(SupervisorEvent::ServerStartFailed {
        error: Error::SpawnFailed("denied".into()),
    });
    assert!(matches!(action, SupervisorAction::Abort { .. }));
    assert!(s.is_stopped());
}

#[test]
fn failed_build_keeps_the_running_server() {
    let mut s = watching(1);
    assert!(matches!(s.step(SupervisorEvent::FileChanged), SupervisorAction::Build));
    let action = s.step(SupervisorEvent::BuildFailed {
        error: Error::BuildFailed,
    });
    assert!(matches!(action, SupervisorAction::KeepServer { .. }));
    assert_eq!(s.current, Some(1));
    assert_eq!(s.phase, SupervisorPhase::Watching);
}

#[test]
fn successful_build_replaces_the_running_server() {
    let mut s = watching(1);
    s.step(SupervisorEvent::FileChanged);
    let action = s.step(SupervisorEvent::BuildSucceeded {
        binary: "/s/new".into(),
    });
    assert!(
        matches!(action, SupervisorAction::StartServer { ref binary, replacing: Some(1) } if binary == "/s/new")
    );
    s.step(SupervisorEvent::ServerStarted { id: 2 });
    assert_eq!(s.current, Some(2));
    // The replaced server's own exit is expected and changes nothing.
    let action = s.step(SupervisorEvent::ServerExited { id: 1 });
    assert!(matches!(action, SupervisorAction::IgnoreExit { id: 1 }));
    assert_eq!(s.current, Some(2));
}

#[test]
fn a_change_during_a_build_restarts_it() {
    let mut s = watching(1);
    s.step(SupervisorEvent::FileChanged);
    assert!(matches!(s.step(SupervisorEvent::FileChanged), SupervisorAction::RestartBuild));
    assert_eq!(s.phase, SupervisorPhase::Building);
    assert_eq!(s.current, Some(1));
}

#[test]
fn a_crashing_server_is_reported_and_forgotten() {
    let mut s = watching(5);
    let action = s.step(SupervisorEvent::ServerExited { id: 5 });
    assert!(matches!(action, SupervisorAction::ReportCrash { id: 5 }));
    assert_eq!(s.current, None);
    assert!(matches!(s.step(SupervisorEvent::FileChanged), SupervisorAction::Build));
}

#[test]
fn a_failed_restart_keeps_watching() {
    let mut s = watching(1);
    s.step(SupervisorEvent::FileChanged);
    s.step(SupervisorEvent::BuildSucceeded {
        binary: "/s/new".into(),
    });
    let action = s.step(SupervisorEvent::ServerStartFailed {
        error: Error::SpawnFailed("busy".into()),
    });
    assert!(matches!(action, SupervisorAction::ReportStartFailure { .. }));
    assert!(!s.is_stopped());
    assert_eq!(s.current, None);
    assert!(matches!(s.step(SupervisorEvent::FileChanged), SupervisorAction::Build));
}

#[test]
fn shutdown_stops_the_server_and_ends() {
    let mut s = watching(9);
    let action = s.step(SupervisorEvent::ShutdownRequested);
    assert!(matches!(action, SupervisorAction::Shutdown { stop: Some(9) }));
    assert!(s.is_stopped());
    assert!(matches!(s.step(SupervisorEvent::FileChanged), SupervisorAction::Nothing));
    assert!(matches!(
        s.step(SupervisorEvent::ServerExited { id: 9 }),
        SupervisorAction::Nothing
    ));
}
