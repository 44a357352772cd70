use vstd::prelude::*;

verus! {

/// The type of service that the records describe: a service that runs in a
/// process of its own.
pub const SERVICE_WIN32_OWN_PROCESS: u32 = 0x10;

/// Accepted-controls bit: the service can be stopped.
pub const ACCEPT_STOP: u32 = 0x1;
/// Accepted-controls bit: the service can be paused and continued.
pub const ACCEPT_PAUSE_CONTINUE: u32 = 0x2;
/// Accepted-controls bit: the service is told of a system shutdown.
pub const ACCEPT_SHUTDOWN: u32 = 0x4;
/// Accepted-controls bit: the service is told of session changes.
pub const ACCEPT_SESSIONCHANGE: u32 = 0x80;

/// Exit code that says the service-specific exit code holds the reason.
pub const ERROR_SERVICE_SPECIFIC_ERROR: u32 = 1066;

/// Wait hint, in milliseconds, sent with the stop pre-announcement.
pub const STOP_WAIT_HINT: u32 = 10;

/// The lifecycle state of a service.
#[derive(Clone, Copy, Debug, PartialEq, Eq, Structural)]
pub enum ServiceState {
    Stopped,
    StartPending,
    StopPending,
    Running,
    ContinuePending,
    PausePending,
    Paused,
}

/// The number that the service manager uses for a state.
pub open spec fn state_code(s: ServiceState) -> u32 {
    match s {
        ServiceState::Stopped => 1,
        ServiceState::StartPending => 2,
        ServiceState::StopPending => 3,
        ServiceState::Running => 4,
        ServiceState::ContinuePending => 5,
        ServiceState::PausePending => 6,
        ServiceState::Paused => 7,
    }
}

/// The controls accepted in a state: none while stopped, only stop and
/// shutdown while a start or a stop is pending, and stop, shutdown,
/// pause/continue and session change otherwise.
pub open spec fn accepted_controls(s: ServiceState) -> u32 {
    match s {
        ServiceState::Stopped => 0,
        ServiceState::StartPending | ServiceState::StopPending => ACCEPT_STOP | ACCEPT_SHUTDOWN,
        _ => ACCEPT_STOP | ACCEPT_SHUTDOWN | ACCEPT_PAUSE_CONTINUE | ACCEPT_SESSIONCHANGE,
    }
}

impl ServiceState {
    /// The number that the service manager uses for the state.
    pub fn code(&self) -> (r: u32)
        ensures
            r == state_code(*self),
    {
        match self {
            ServiceState::Stopped => 1,
            ServiceState::StartPending => 2,
            ServiceState::StopPending => 3,
            ServiceState::Running => 4,
            ServiceState::ContinuePending => 5,
            ServiceState::PausePending => 6,
            ServiceState::Paused => 7,
        }
    }

    /// The state that the service manager means by `code`, if any.
    pub fn from_code(code: u32) -> (r: Option<ServiceState>)
        ensures
            r matches Some(s) ==> state_code(s) == code,
            r is None <==> (code < 1 || code > 7),
    {
        match code {
            1 => Some(ServiceState::Stopped),
            2 => Some(ServiceState::StartPending),
            3 => Some(ServiceState::StopPending),
            4 => Some(ServiceState::Running),
            5 => Some(ServiceState::ContinuePending),
            6 => Some(ServiceState::PausePending),
            7 => Some(ServiceState::Paused),
            _ => None,
        }
    }

    /// The controls that the service accepts in this state.
    pub fn accepted_controls(&self) -> (r: u32)
        ensures
            r == accepted_controls(*self),
    {
        match self {
            ServiceState::Stopped => 0,
            ServiceState::StartPending | ServiceState::StopPending => ACCEPT_STOP | ACCEPT_SHUTDOWN,
            _ => ACCEPT_STOP | ACCEPT_SHUTDOWN | ACCEPT_PAUSE_CONTINUE | ACCEPT_SESSIONCHANGE,
        }
    }
}

/// The status record that is pushed to the service manager.
#[derive(Clone, Copy, Debug, PartialEq, Eq, Structural)]
pub struct ServiceStatus {
    pub service_type: u32,
    pub state: ServiceState,
    pub controls_accepted: u32,
    pub win32_exit_code: u32,
    pub service_exit_code: u32,
    pub checkpoint: u32,
    pub wait_hint: u32,
}

/// The record for `state` with the given wait hint: the accepted controls
/// are those of the state, and the exit codes and checkpoint are zero.
pub open spec fn status_record(state: ServiceState, wait_hint: u32) -> ServiceStatus {
    ServiceStatus {
        service_type: SERVICE_WIN32_OWN_PROCESS,
        state,
        controls_accepted: accepted_controls(state),
        win32_exit_code: 0,
        service_exit_code: 0,
        checkpoint: 0,
        wait_hint,
    }
}

/// The final record of a service whose main function returned `exit_code`:
/// zero is a clean exit, any other value is reported as service-specific.
pub open spec fn stopped_record(exit_code: u32) -> ServiceStatus {
    ServiceStatus {
        win32_exit_code: if exit_code == 0 { 0 } else { ERROR_SERVICE_SPECIFIC_ERROR },
        service_exit_code: exit_code,
        ..status_record(ServiceState::Stopped, 0)
    }
}

impl ServiceStatus {
    /// The record for `state` with the given wait hint.
    pub fn new(state: ServiceState, wait_hint: u32) -> (r: ServiceStatus)
        ensures
            r == status_record(state, wait_hint),
    {
        ServiceStatus {
            service_type: SERVICE_WIN32_OWN_PROCESS,
            state,
            controls_accepted: state.accepted_controls(),
            win32_exit_code: 0,
            service_exit_code: 0,
            checkpoint: 0,
            wait_hint,
        }
    }

    /// The final record of a service whose main function returned
    /// `exit_code`.
    pub fn stopped(exit_code: u32) -> (r: ServiceStatus)
        ensures
            r == stopped_record(exit_code),
    {
        let base = ServiceStatus::new(ServiceState::Stopped, 0);
        ServiceStatus {
            win32_exit_code: if exit_code == 0 { 0 } else { ERROR_SERVICE_SPECIFIC_ERROR },
            service_exit_code: exit_code,
            ..base
        }
    }

    /// The number that the service manager uses for the record's state.
    pub fn current_state(&self) -> (r: u32)
        ensures
            r == state_code(self.state),
    {
        self.state.code()
    }
}

} // verus!
