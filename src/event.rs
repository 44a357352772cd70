use vstd::prelude::*;
use crate::session::{Session, Session_};
use crate::text::{decimal, push_decimal};

verus! {

/// An event delivered to the service's main function.
///
/// Events come from the control handler (or the termination-signal handler)
/// and are read by the service's main function, in the order they were sent.
/// `Custom` carries events that the application originates itself. Sessions
/// are known by identifiers of type `I`: a number where the service manager
/// gives one (the default), a string for Linux login managers.
#[derive(Clone, Copy, Debug, PartialEq, Eq, Structural)]
pub enum ServiceEvent<T, I = u32> {
    Continue,
    Pause,
    Stop,
    SessionConnect(Session_<I>),
    SessionDisconnect(Session_<I>),
    SessionLogon(Session_<I>),
    SessionLogoff(Session_<I>),
    SessionLock(Session_<I>),
    SessionUnlock(Session_<I>),
    Custom(T),
}

/// The text of a session event: its name, then the session identifier in
/// parentheses.
pub open spec fn session_text(name: Seq<char>, s: Session) -> Seq<char> {
    name + "("@ + decimal(s.id as nat) + ")"@
}

/// How an event reads in a log line.
pub open spec fn event_text<T>(e: ServiceEvent<T>) -> Seq<char> {
    match e {
        ServiceEvent::Continue => "Continue"@,
        ServiceEvent::Pause => "Pause"@,
        ServiceEvent::Stop => "Stop"@,
        ServiceEvent::SessionConnect(s) => session_text("SessionConnect"@, s),
        ServiceEvent::SessionDisconnect(s) => session_text("SessionDisconnect"@, s),
        ServiceEvent::SessionLogon(s) => session_text("SessionLogon"@, s),
        ServiceEvent::SessionLogoff(s) => session_text("SessionLogoff"@, s),
        ServiceEvent::SessionLock(s) => session_text("SessionLock"@, s),
        ServiceEvent::SessionUnlock(s) => session_text("SessionUnlock"@, s),
        ServiceEvent::Custom(_) => "Custom"@,
    }
}

fn describe_session(name: &str, s: Session) -> (r: String)
    ensures
        r@ == session_text(name@, s),
{
    let mut out = String::from_str(name);
    out.append("(");
    push_decimal(&mut out, s.id);
    out.append(")");
    out
}

impl<T, I> ServiceEvent<T, I> {
    /// Whether the event is a request to stop.
    pub fn is_stop(&self) -> (r: bool)
        ensures
            r == (*self is Stop),
    {
        match self {
            ServiceEvent::Stop => true,
            _ => false,
        }
    }
}

impl<T> ServiceEvent<T> {
    /// The event as it reads in a log line, such as `Stop` or
    /// `SessionConnect(7)`.
    pub fn describe(&self) -> (r: String)
        ensures
            r@ == event_text(*self),
    {
        match self {
            ServiceEvent::Continue => String::from_str("Continue"),
            ServiceEvent::Pause => String::from_str("Pause"),
            ServiceEvent::Stop => String::from_str("Stop"),
            ServiceEvent::SessionConnect(s) => describe_session("SessionConnect", *s),
            ServiceEvent::SessionDisconnect(s) => describe_session("SessionDisconnect", *s),
            ServiceEvent::SessionLogon(s) => describe_session("SessionLogon", *s),
            ServiceEvent::SessionLogoff(s) => describe_session("SessionLogoff", *s),
            ServiceEvent::SessionLock(s) => describe_session("SessionLock", *s),
            ServiceEvent::SessionUnlock(s) => describe_session("SessionUnlock", *s),
            ServiceEvent::Custom(_) => String::from_str("Custom"),
        }
    }
}

} // verus!
