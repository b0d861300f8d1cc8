use cargo_serve::error::Error;
use cargo_serve::server::{
    kill_target, signal_outcome, Signal, StopAction, StopEvent, StopPhase, SHUTDOWN_TIMEOUT_SECS,
};

#[test]
fn kill_addresses_the_process_group() {
    assert_eq!(kill_target(1234), -1234);
    assert_eq!(kill_target(0), 0);
    assert_eq!(kill_target(0x7fff_ffff), -0x7fff_ffff);
    assert_eq!(kill_target(0xffff_ffff), 1);
}

#[test]
fn a_vanished_group_counts_as_stopped() {
    assert!(signal_outcome(0, false, "x".into()).is_ok());
    assert!(signal_outcome(-1, true, "x".into()).is_ok());
    assert!(matches!(
        signal_outcome(-1, false, "denied".into()),
        Err(Error::StopFailed(m)) if m == "denied"
    ));
}

#[test]
fn an_exited_server_is_not_signalled() {
    let (phase, action) = StopPhase::Begin.step(StopEvent::Begin {
        already_exited: true,
    });
    assert_eq!(phase, StopPhase::Done);
    assert!(matches!(action, StopAction::Finish(Ok(()))));
}

#[test]
fn stop_escalates_to_sigkill_after_a_timeout() {
    let (p, a) = StopPhase::Begin.step(StopEvent::Begin {
        already_exited: false,
    });
    assert!(matches!(a, StopAction::Send(Signal::Term)));
    let (p, a) = p.step(StopEvent::Signalled { result: Ok(()) });
    assert!(matches!(a, StopAction::WaitForExit { seconds: 5 }));
    let (p, a) = p.step(StopEvent::Waited { exited: false });
    assert!(matches!(a, StopAction::Send(Signal::Kill)));
    let (p, a) = p.step(StopEvent::Signalled { result: Ok(()) });
    assert!(matches!(a, StopAction::WaitForExit { seconds: 5 }));
    let (p, a) = p.step(StopEvent::Waited { exited: false });
    assert!(matches!(a, StopAction::Finish(Ok(()))));
    assert_eq!(p, StopPhase::Done);
}

#[test]
fn stop_ends_when_the_server_exits_in_time_or_signalling_fails() {
    let (p, _) = StopPhase::Begin.step(StopEvent::Begin {
        already_exited: false,
    });
    let (p2, _) = p.step(StopEvent::Signalled { result: Ok(()) });
    let (p3, a) = p2.step(StopEvent::Waited { exited: true });
    assert_eq!(p3, StopPhase::Done);
    assert!(matches!(a, StopAction::Finish(Ok(()))));

    let (_, a) = p.step(StopEvent::Signalled {
        result: Err(Error::StopFailed("eperm".into())),
    });
    assert!(matches!(a, StopAction::Finish(Err(Error::StopFailed(_)))));
}

#[test]
fn every_wait_of_a_stop_lasts_five_seconds() {
    assert_eq!(SHUTDOWN_TIMEOUT_SECS, 5);
    let (p, _) = StopPhase::Begin.step(StopEvent::Begin {
        already_exited: false,
    });
    let mut waited = 0;
    let (p, a) = p.step(StopEvent::Signalled { result: Ok(()) });
    if let StopAction::WaitForExit { seconds } = a {
        waited += seconds;
    }
    let (p, _) = p.step(StopEvent::Waited { exited: false });
    let (_, a) = p.step(StopEvent::Signalled { result: Ok(()) });
    if let StopAction::WaitForExit { seconds } = a {
        waited += seconds;
    }
    assert_eq!(waited, 10);
}
