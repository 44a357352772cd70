use vstd::prelude::*;
use crate::channel::{after_send, lemma_after_sends, EventQueue};
use crate::dispatcher::StatusReporter;
use crate::event::ServiceEvent;
use crate::session::Session_;
use crate::status::{status_record, ServiceState, ServiceStatus, STOP_WAIT_HINT};

verus! {

/// Control code: stop the service.
pub const CONTROL_STOP: u32 = 0x1;
/// Control code: pause the service.
pub const CONTROL_PAUSE: u32 = 0x2;
/// Control code: continue a paused service.
pub const CONTROL_CONTINUE: u32 = 0x3;
/// Control code: the system is shutting down.
pub const CONTROL_SHUTDOWN: u32 = 0x5;
/// Control code: a session changed; the subtype says how.
pub const CONTROL_SESSIONCHANGE: u32 = 0xE;

/// Session-change subtype: a session connected to the console.
pub const WTS_CONSOLE_CONNECT: u32 = 0x1;
/// Session-change subtype: a session disconnected from the console.
pub const WTS_CONSOLE_DISCONNECT: u32 = 0x2;
/// Session-change subtype: a remote session connected.
pub const WTS_REMOTE_CONNECT: u32 = 0x3;
/// Session-change subtype: a remote session disconnected.
pub const WTS_REMOTE_DISCONNECT: u32 = 0x4;
/// Session-change subtype: a user logged on.
pub const WTS_SESSION_LOGON: u32 = 0x5;
/// Session-change subtype: a user logged off.
pub const WTS_SESSION_LOGOFF: u32 = 0x6;
/// Session-change subtype: a session was locked.
pub const WTS_SESSION_LOCK: u32 = 0x7;
/// Session-change subtype: a session was unlocked.
pub const WTS_SESSION_UNLOCK: u32 = 0x8;

/// What the handler returns for a control it handled.
pub const NO_ERROR: u32 = 0;
/// What the handler returns for a control it does not know.
pub const ERROR_CALL_NOT_IMPLEMENTED: u32 = 120;

/// The event that a session-change notification of subtype `event_type`
/// for session `session_id` stands for, if any.
pub open spec fn session_event<T>(event_type: u32, session_id: u32) -> Option<ServiceEvent<T>> {
    let s = Session_ { id: session_id };
    if event_type == WTS_CONSOLE_CONNECT || event_type == WTS_REMOTE_CONNECT {
        Some(ServiceEvent::SessionConnect(s))
    } else if event_type == WTS_CONSOLE_DISCONNECT || event_type == WTS_REMOTE_DISCONNECT {
        Some(ServiceEvent::SessionDisconnect(s))
    } else if event_type == WTS_SESSION_LOGON {
        Some(ServiceEvent::SessionLogon(s))
    } else if event_type == WTS_SESSION_LOGOFF {
        Some(ServiceEvent::SessionLogoff(s))
    } else if event_type == WTS_SESSION_LOCK {
        Some(ServiceEvent::SessionLock(s))
    } else if event_type == WTS_SESSION_UNLOCK {
        Some(ServiceEvent::SessionUnlock(s))
    } else {
        None
    }
}

/// Whether the handler knows control code `control`.
pub open spec fn is_known_control(control: u32) -> bool {
    control == CONTROL_STOP || control == CONTROL_SHUTDOWN || control == CONTROL_PAUSE
        || control == CONTROL_CONTINUE || control == CONTROL_SESSIONCHANGE
}

/// The event that control `control` stands for, if any; `event_type` and
/// `session_id` matter for a session change only.
pub open spec fn control_event<T>(control: u32, event_type: u32, session_id: u32) -> Option<
    ServiceEvent<T>,
> {
    if control == CONTROL_STOP || control == CONTROL_SHUTDOWN {
        Some(ServiceEvent::Stop)
    } else if control == CONTROL_PAUSE {
        Some(ServiceEvent::Pause)
    } else if control == CONTROL_CONTINUE {
        Some(ServiceEvent::Continue)
    } else if control == CONTROL_SESSIONCHANGE {
        session_event(event_type, session_id)
    } else {
        None
    }
}

/// What the handler returns to the service manager for `control`.
pub open spec fn control_result(control: u32) -> u32 {
    if is_known_control(control) {
        NO_ERROR
    } else {
        ERROR_CALL_NOT_IMPLEMENTED
    }
}

/// The event of a session-change notification of subtype `event_type` for
/// session `session_id`; an unknown subtype gives none.
pub fn translate_session_change<T>(event_type: u32, session_id: u32) -> (r: Option<ServiceEvent<T>>)
    ensures
        r == session_event::<T>(event_type, session_id),
{
    let s = Session_::new(session_id);
    if event_type == WTS_CONSOLE_CONNECT || event_type == WTS_REMOTE_CONNECT {
        Some(ServiceEvent::SessionConnect(s))
    } else if event_type == WTS_CONSOLE_DISCONNECT || event_type == WTS_REMOTE_DISCONNECT {
        Some(ServiceEvent::SessionDisconnect(s))
    } else if event_type == WTS_SESSION_LOGON {
        Some(ServiceEvent::SessionLogon(s))
    } else if event_type == WTS_SESSION_LOGOFF {
        Some(ServiceEvent::SessionLogoff(s))
    } else if event_type == WTS_SESSION_LOCK {
        Some(ServiceEvent::SessionLock(s))
    } else if event_type == WTS_SESSION_UNLOCK {
        Some(ServiceEvent::SessionUnlock(s))
    } else {
        None
    }
}

/// The event that a control stands for, and what the handler returns to the
/// service manager for it.
pub fn translate_control<T>(control: u32, event_type: u32, session_id: u32) -> (r: (
    Option<ServiceEvent<T>>,
    u32,
))
    ensures
        r.0 == control_event::<T>(control, event_type, session_id),
        r.1 == control_result(control),
{
    if control == CONTROL_STOP || control == CONTROL_SHUTDOWN {
        (Some(ServiceEvent::Stop), NO_ERROR)
    } else if control == CONTROL_PAUSE {
        (Some(ServiceEvent::Pause), NO_ERROR)
    } else if control == CONTROL_CONTINUE {
        (Some(ServiceEvent::Continue), NO_ERROR)
    } else if control == CONTROL_SESSIONCHANGE {
        (translate_session_change(event_type, session_id), NO_ERROR)
    } else {
        (None, ERROR_CALL_NOT_IMPLEMENTED)
    }
}

/// The control handler: translates `control` into an event and forwards it
/// on `queue` without waiting. A stop or shutdown also announces stop
/// pending through `reporter` before the consumer wakes; the record to push
/// is returned beside the value that the service manager gets back.
pub fn handle_control<T>(
    queue: &mut EventQueue<T>,
    reporter: &mut StatusReporter,
    control: u32,
    event_type: u32,
    session_id: u32,
) -> (r: (u32, Option<ServiceStatus>))
    requires
        old(reporter).wf(),
    ensures
        final(reporter).wf(),
        r.0 == control_result(control),
        control_event::<T>(control, event_type, session_id) matches Some(e) ==> final(queue)@
            == after_send(old(queue)@, e),
        control_event::<T>(control, event_type, session_id) is None ==> final(queue)@ == old(
            queue,
        )@,
        (control == CONTROL_STOP || control == CONTROL_SHUTDOWN) && old(reporter)@.stage < 3 ==> {
            &&& r.1 == Some(status_record(ServiceState::StopPending, STOP_WAIT_HINT))
            &&& final(reporter)@.reported == old(reporter)@.reported.push(ServiceState::StopPending)
        },
        !((control == CONTROL_STOP || control == CONTROL_SHUTDOWN) && old(reporter)@.stage < 3)
            ==> r.1 is None && final(reporter)@ == old(reporter)@,
{
    let announced = if control == CONTROL_STOP || control == CONTROL_SHUTDOWN {
        reporter.announce_stop()
    } else {
        None
    };
    let (event, result) = translate_control(control, event_type, session_id);
    if let Some(e) = event {
        queue.send(e);
    }
    (result, announced)
}

/// Whether the active login session changed from `current` to `active`.
pub open spec fn session_changed(current: Option<String>, active: Option<String>) -> bool {
    match (current, active) {
        (Some(c), Some(a)) => c@ != a@,
        (None, None) => false,
        _ => true,
    }
}

/// The events that a change of the active login session from `current`
/// to `active` sends, in order: if it changed, the new session connects,
/// then the old one disconnects; otherwise nothing is sent.
pub open spec fn session_change_events<T>(current: Option<String>, active: Option<String>) -> Seq<
    ServiceEvent<T, String>,
> {
    if session_changed(current, active) {
        let connect = match active {
            Some(a) => seq![ServiceEvent::SessionConnect(Session_ { id: a })],
            None => Seq::empty(),
        };
        let disconnect = match current {
            Some(c) => seq![ServiceEvent::SessionDisconnect(Session_ { id: c })],
            None => Seq::empty(),
        };
        connect + disconnect
    } else {
        Seq::empty()
    }
}

/// The events to send when a login manager's active session moves from
/// `current` to `active`.
pub fn session_transition<T>(current: &Option<String>, active: &Option<String>) -> (r: Vec<
    ServiceEvent<T, String>,
>)
    ensures
        r@ == session_change_events::<T>(*current, *active),
{
    let changed = match (current, active) {
        (Some(c), Some(a)) => !(*c == *a),
        (None, None) => false,
        _ => true,
    };
    let mut out: Vec<ServiceEvent<T, String>> = Vec::new();
    if changed {
        if let Some(a) = active {
            out.push(ServiceEvent::SessionConnect(Session_::new(a.clone())));
        }
        if let Some(c) = current {
            out.push(ServiceEvent::SessionDisconnect(Session_::new(c.clone())));
        }
    }
    proof {
        let ghost want = session_change_events::<T>(*current, *active);
        assert(out@ =~= want);
    }
    out
}

/// Sends the events of a change of the active login session from
/// `current` to `active`, in order.
pub fn announce_session_change<T>(
    queue: &mut EventQueue<T, String>,
    current: &Option<String>,
    active: &Option<String>,
)
    ensures
        final(queue)@ == old(queue)@ + session_change_events::<T>(*current, *active),
{
    let events = session_transition(current, active);
    queue.send_all(events);
    proof { lemma_after_sends(old(queue)@, session_change_events::<T>(*current, *active)); }
}

/// The termination-signal handler of platforms without control codes: it
/// sends exactly one stop.
pub fn handle_termination<T, I>(queue: &mut EventQueue<T, I>)
    ensures
        final(queue)@ == after_send(old(queue)@, ServiceEvent::<T, I>::Stop),
{
    queue.send(ServiceEvent::Stop);
}

} // verus!
