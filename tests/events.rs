use ceviche::channel::EventQueue;
use ceviche::control::{
    announce_session_change, session_transition,
    handle_control, handle_termination, translate_control, translate_session_change,
    CONTROL_CONTINUE, CONTROL_PAUSE, CONTROL_SESSIONCHANGE, CONTROL_SHUTDOWN, CONTROL_STOP,
    ERROR_CALL_NOT_IMPLEMENTED, NO_ERROR, WTS_CONSOLE_CONNECT, WTS_CONSOLE_DISCONNECT,
    WTS_REMOTE_CONNECT, WTS_SESSION_LOCK, WTS_SESSION_LOGOFF, WTS_SESSION_LOGON,
    WTS_SESSION_UNLOCK,
};
use ceviche::dispatcher::StatusReporter;
use ceviche::status::{ServiceState, ServiceStatus, STOP_WAIT_HINT};
use ceviche::{ServiceEvent, Session, Session_};

type Event = ServiceEvent<u8>;

#[test]
fn events_are_received_in_send_order() {
    let mut q: EventQueue<u8> = EventQueue::new();
    q.send(ServiceEvent::Stop);
    q.send(ServiceEvent::Pause);
    q.send(ServiceEvent::Continue);
    assert_eq!(q.len(), 3);
    assert_eq!(q.recv(), Some(ServiceEvent::Stop));
    assert_eq!(q.recv(), Some(ServiceEvent::Pause));
    assert_eq!(q.recv(), Some(ServiceEvent::Continue));
    assert_eq!(q.recv(), None);
    assert!(q.is_empty());
}

#[test]
fn custom_events_share_the_channel() {
    let mut q: EventQueue<u8> = EventQueue::new();
    q.send(ServiceEvent::Custom(9));
    handle_termination(&mut q);
    assert_eq!(q.recv(), Some(ServiceEvent::Custom(9)));
    assert_eq!(q.recv(), Some(ServiceEvent::Stop));
    assert_eq!(q.recv(), None);
}

#[test]
fn console_connect_gives_one_session_connect() {
    let mut q: EventQueue<u8> = EventQueue::new();
    let mut rep = StatusReporter::new();
    let (code, status) = handle_control(&mut q, &mut rep, CONTROL_SESSIONCHANGE, WTS_CONSOLE_CONNECT, 7);
    assert_eq!(code, NO_ERROR);
    assert_eq!(status, None);
    assert_eq!(q.recv(), Some(ServiceEvent::SessionConnect(Session::new(7))));
    assert_eq!(q.recv(), None);
}

#[test]
fn session_lock_gives_one_session_lock() {
    let mut q: EventQueue<u8> = EventQueue::new();
    let mut rep = StatusReporter::new();
    let (code, _) = handle_control(&mut q, &mut rep, CONTROL_SESSIONCHANGE, WTS_SESSION_LOCK, 7);
    assert_eq!(code, NO_ERROR);
    assert_eq!(q.recv(), Some(ServiceEvent::SessionLock(Session::new(7))));
    assert_eq!(q.recv(), None);
}

#[test]
fn unknown_session_subtype_gives_no_event() {
    let mut q: EventQueue<u8> = EventQueue::new();
    let mut rep = StatusReporter::new();
    let (code, status) = handle_control(&mut q, &mut rep, CONTROL_SESSIONCHANGE, 0x9, 7);
    assert_eq!(code, NO_ERROR);
    assert_eq!(status, None);
    assert!(q.is_empty());
}

#[test]
fn session_subtypes_map_to_events() {
    assert_eq!(translate_session_change::<u8>(WTS_REMOTE_CONNECT, 3), Some(ServiceEvent::SessionConnect(Session::new(3))));
    assert_eq!(translate_session_change::<u8>(WTS_CONSOLE_DISCONNECT, 3), Some(ServiceEvent::SessionDisconnect(Session::new(3))));
    assert_eq!(translate_session_change::<u8>(WTS_SESSION_LOGON, 3), Some(ServiceEvent::SessionLogon(Session::new(3))));
    assert_eq!(translate_session_change::<u8>(WTS_SESSION_LOGOFF, 3), Some(ServiceEvent::SessionLogoff(Session::new(3))));
    assert_eq!(translate_session_change::<u8>(WTS_SESSION_UNLOCK, 3), Some(ServiceEvent::SessionUnlock(Session::new(3))));
    assert_eq!(translate_session_change::<u8>(0, 3), None);
}

#[test]
fn controls_map_to_events_and_results() {
    assert_eq!(translate_control::<u8>(CONTROL_STOP, 0, 0), (Some(Event::Stop), NO_ERROR));
    assert_eq!(translate_control::<u8>(CONTROL_SHUTDOWN, 0, 0), (Some(Event::Stop), NO_ERROR));
    assert_eq!(translate_control::<u8>(CONTROL_PAUSE, 0, 0), (Some(Event::Pause), NO_ERROR));
    assert_eq!(translate_control::<u8>(CONTROL_CONTINUE, 0, 0), (Some(Event::Continue), NO_ERROR));
    assert_eq!(translate_control::<u8>(4, 0, 0), (None, ERROR_CALL_NOT_IMPLEMENTED));
}

#[test]
fn unknown_control_is_not_implemented_and_sends_nothing() {
    let mut q: EventQueue<u8> = EventQueue::new();
    let mut rep = StatusReporter::new();
    let (code, status) = handle_control(&mut q, &mut rep, 0x40, 0, 0);
    assert_eq!(code, ERROR_CALL_NOT_IMPLEMENTED);
    assert_eq!(status, None);
    assert!(q.is_empty());
}

#[test]
fn stop_before_receive_loop_is_received_once() {
    let mut q: EventQueue<u8> = EventQueue::new();
    let mut rep = StatusReporter::new();
    let started = rep.begin();
    assert_eq!(started.len(), 2);
    // The stop arrives before the main function reads anything.
    let (code, status) = handle_control(&mut q, &mut rep, CONTROL_STOP, 0, 0);
    assert_eq!(code, NO_ERROR);
    assert_eq!(status, Some(ServiceStatus::new(ServiceState::StopPending, STOP_WAIT_HINT)));
    // The receive loop starts now.
    let mut stops = 0;
    while let Some(e) = q.recv() {
        if e.is_stop() {
            stops += 1;
        }
    }
    assert_eq!(stops, 1);
}

#[test]
fn stop_before_start_is_kept_and_start_reports_nothing() {
    let mut q: EventQueue<u8> = EventQueue::new();
    let mut rep = StatusReporter::new();
    let (_, status) = handle_control(&mut q, &mut rep, CONTROL_SHUTDOWN, 0, 0);
    assert!(status.is_some());
    assert!(rep.begin().is_empty());
    assert_eq!(rep.state(), ServiceState::StopPending);
    assert_eq!(q.recv(), Some(ServiceEvent::Stop));
    assert_eq!(q.recv(), None);
}

#[test]
fn events_describe_themselves() {
    assert_eq!(Event::Stop.describe(), "Stop");
    assert_eq!(Event::Pause.describe(), "Pause");
    assert_eq!(Event::Continue.describe(), "Continue");
    assert_eq!(Event::SessionConnect(Session::new(7)).describe(), "SessionConnect(7)");
    assert_eq!(Event::SessionDisconnect(Session::new(0)).describe(), "SessionDisconnect(0)");
    assert_eq!(Event::SessionLock(Session::new(4294967295)).describe(), "SessionLock(4294967295)");
    assert_eq!(Event::SessionUnlock(Session::new(120)).describe(), "SessionUnlock(120)");
    assert_eq!(Event::Custom(1).describe(), "Custom");
}

#[test]
fn sessions_compare_by_id() {
    assert_eq!(Session::new(5), Session::new(5));
    assert_ne!(Session::new(5), Session::new(6));
    assert_eq!(Session::new(5).id, 5);
}

#[test]
fn sent_batch_is_received_in_order() {
    let mut q: EventQueue<u8> = EventQueue::new();
    q.send_all(vec![Event::Stop, Event::Pause, Event::Continue, Event::Custom(4)]);
    let got = q.recv_n(5);
    assert_eq!(
        got,
        vec![Some(Event::Stop), Some(Event::Pause), Some(Event::Continue), Some(Event::Custom(4)), None]
    );
    assert!(q.is_empty());
}

#[test]
fn session_transition_announces_new_then_old() {
    type Linux = ServiceEvent<u8, String>;
    let a = Some("c1".to_string());
    let b = Some("c2".to_string());
    assert_eq!(
        session_transition::<u8>(&a, &b),
        vec![
            Linux::SessionConnect(Session_::new("c2".to_string())),
            Linux::SessionDisconnect(Session_::new("c1".to_string())),
        ]
    );
    assert!(session_transition::<u8>(&a, &Some("c1".to_string())).is_empty());
    assert_eq!(session_transition::<u8>(&None, &b), vec![Linux::SessionConnect(Session_::new("c2".to_string()))]);
    assert_eq!(session_transition::<u8>(&a, &None), vec![Linux::SessionDisconnect(Session_::new("c1".to_string()))]);
    assert!(session_transition::<u8>(&None, &None).is_empty());
}

#[test]
fn session_change_is_sent_in_order() {
    let mut q: EventQueue<u8, String> = EventQueue::new();
    announce_session_change(&mut q, &Some("1".to_string()), &Some("2".to_string()));
    assert_eq!(q.recv(), Some(ServiceEvent::SessionConnect(Session_::new("2".to_string()))));
    assert_eq!(q.recv(), Some(ServiceEvent::SessionDisconnect(Session_::new("1".to_string()))));
    assert_eq!(q.recv(), None);
}

#[test]
fn session_reads_as_its_id() {
    assert_eq!(Session::new(7).describe(), "7");
    assert_eq!(Session::new(0).describe(), "0");
    assert_eq!(Session::new(4294967295).describe(), "4294967295");
}
