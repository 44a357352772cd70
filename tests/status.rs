use ceviche::dispatcher::StatusReporter;
use ceviche::status::{
    ServiceState, ServiceStatus, ACCEPT_PAUSE_CONTINUE, ACCEPT_SESSIONCHANGE, ACCEPT_SHUTDOWN,
    ACCEPT_STOP, ERROR_SERVICE_SPECIFIC_ERROR, SERVICE_WIN32_OWN_PROCESS,
};

#[test]
fn accepted_controls_follow_the_state() {
    assert_eq!(ServiceState::Stopped.accepted_controls(), 0);
    assert_eq!(ServiceState::StartPending.accepted_controls(), ACCEPT_STOP | ACCEPT_SHUTDOWN);
    assert_eq!(ServiceState::StopPending.accepted_controls(), 0x5);
    assert_eq!(
        ServiceState::Running.accepted_controls(),
        ACCEPT_STOP | ACCEPT_SHUTDOWN | ACCEPT_PAUSE_CONTINUE | ACCEPT_SESSIONCHANGE
    );
    assert_eq!(ServiceState::Running.accepted_controls(), 0x87);
}

#[test]
fn state_codes_round_trip() {
    for code in 1..=7u32 {
        let s = ServiceState::from_code(code).unwrap();
        assert_eq!(s.code(), code);
    }
    assert_eq!(ServiceState::from_code(0), None);
    assert_eq!(ServiceState::from_code(8), None);
    assert_eq!(ServiceState::Running.code(), 4);
}

#[test]
fn status_record_fields() {
    let s = ServiceStatus::new(ServiceState::StartPending, 3000);
    assert_eq!(s.service_type, SERVICE_WIN32_OWN_PROCESS);
    assert_eq!(s.current_state(), 2);
    assert_eq!(s.controls_accepted, 0x5);
    assert_eq!(s.wait_hint, 3000);
    assert_eq!(s.checkpoint, 0);
    assert_eq!(s.win32_exit_code, 0);
}

#[test]
fn stopped_record_carries_the_exit_code() {
    let ok = ServiceStatus::stopped(0);
    assert_eq!(ok.win32_exit_code, 0);
    assert_eq!(ok.service_exit_code, 0);
    assert_eq!(ok.controls_accepted, 0);
    let bad = ServiceStatus::stopped(3);
    assert_eq!(bad.win32_exit_code, ERROR_SERVICE_SPECIFIC_ERROR);
    assert_eq!(bad.service_exit_code, 3);
    assert_eq!(bad.current_state(), 1);
}

#[test]
fn reported_states_follow_the_lifecycle() {
    let mut rep = StatusReporter::new();
    let mut seen = vec![rep.state()];
    let started = rep.begin();
    assert_eq!(
        started.iter().map(|s| s.state).collect::<Vec<_>>(),
        vec![ServiceState::StartPending, ServiceState::Running]
    );
    seen.push(ServiceState::StartPending);
    seen.push(rep.state());
    // A repeated start or a step back reports nothing.
    assert!(rep.begin().is_empty());
    assert_eq!(rep.report(ServiceState::StartPending, 0), None);
    let done = rep.finish(0);
    assert_eq!(
        done.iter().map(|s| s.state).collect::<Vec<_>>(),
        vec![ServiceState::StopPending, ServiceState::Stopped]
    );
    seen.push(ServiceState::StopPending);
    seen.push(rep.state());
    assert_eq!(
        seen,
        vec![
            ServiceState::Stopped,
            ServiceState::StartPending,
            ServiceState::Running,
            ServiceState::StopPending,
            ServiceState::Stopped
        ]
    );
    assert!(rep.finish(0).is_empty());
}

#[test]
fn announced_stop_is_not_repeated_at_finish() {
    let mut rep = StatusReporter::new();
    rep.begin();
    let a = rep.announce_stop().unwrap();
    assert_eq!(a.state, ServiceState::StopPending);
    assert_eq!(a.wait_hint, 10);
    assert_eq!(rep.announce_stop(), None);
    let done = rep.finish(2);
    assert_eq!(done.len(), 1);
    assert_eq!(done[0], ServiceStatus::stopped(2));
}

#[test]
fn paused_is_never_reported() {
    let mut rep = StatusReporter::new();
    rep.begin();
    assert_eq!(rep.report(ServiceState::Paused, 0), None);
    assert_eq!(rep.state(), ServiceState::Running);
}
