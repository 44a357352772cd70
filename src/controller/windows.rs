use vstd::prelude::*;
use crate::controller::ControllerInterface;
use crate::error::ErrorKind;
use crate::plan::{
    after_outcome, lemma_success_needs_expected_state, reports_state, Outcome, RunState,
    best_effort, push_step, required, steps_view, wait_while, Action, ActionView,
    Operation, Step, StepView, Wait, MAX_POLLS, POLL_INTERVAL_MS,
};
use crate::status::{state_code, ServiceState, ServiceStatus, status_record, ACCEPT_STOP, SERVICE_WIN32_OWN_PROCESS};

verus! {

/// Access right: every right on the service.
pub const SERVICE_ALL_ACCESS: u32 = 0xF01FF;
/// Start type: the service starts with the system.
pub const SERVICE_AUTO_START: u32 = 0x2;
/// Error control: a failure to start is logged and startup goes on.
pub const SERVICE_ERROR_NORMAL: u32 = 0x1;

/// The steps of `create`: register the service with its names, its
/// executable and its start configuration.
pub open spec fn windows_create_steps(c: WindowsController, exe: Seq<char>) -> Seq<StepView> {
    seq![
        StepView {
            action: ActionView::CreateService {
                name: c.service_name@,
                display_name: c.display_name@,
                binary_path: exe,
                description: c.description@,
                desired_access: c.desired_access,
                service_type: c.service_type,
                start_type: c.start_type,
                error_control: c.error_control,
            },
            must_succeed: true,
            context: "CreateService"@,
            wait: None,
        },
    ]
}

/// The steps of `delete`: send a stop and wait while it is pending, both on
/// a best-effort basis, then remove the registration.
pub open spec fn windows_delete_steps(name: Seq<char>) -> Seq<StepView> {
    seq![
        StepView {
            action: ActionView::StopService { name },
            must_succeed: false,
            context: Seq::empty(),
            wait: None,
        },
        StepView {
            action: ActionView::QueryStatus { name },
            must_succeed: false,
            context: Seq::empty(),
            wait: Some(Wait { pending: ServiceState::StopPending, expect: None }),
        },
        StepView {
            action: ActionView::DeleteService { name },
            must_succeed: true,
            context: "DeleteService"@,
            wait: None,
        },
    ]
}

/// The steps of `start`: ask for the start, then wait while it is pending;
/// the service must then be running.
pub open spec fn windows_start_steps(name: Seq<char>) -> Seq<StepView> {
    seq![
        StepView {
            action: ActionView::StartService { name },
            must_succeed: true,
            context: "StartService"@,
            wait: None,
        },
        StepView {
            action: ActionView::QueryStatus { name },
            must_succeed: true,
            context: "Failed to start service"@,
            wait: Some(Wait { pending: ServiceState::StartPending, expect: Some(ServiceState::Running) }),
        },
    ]
}

/// The steps of `stop`: send the stop, then wait while it is pending; the
/// service must then be stopped.
pub open spec fn windows_stop_steps(name: Seq<char>) -> Seq<StepView> {
    seq![
        StepView {
            action: ActionView::StopService { name },
            must_succeed: true,
            context: "ControlService: failed to stop service"@,
            wait: None,
        },
        StepView {
            action: ActionView::QueryStatus { name },
            must_succeed: true,
            context: "Failed to stop service"@,
            wait: Some(Wait { pending: ServiceState::StopPending, expect: Some(ServiceState::Stopped) }),
        },
    ]
}

/// Manages a service of the Windows service control manager.
pub struct WindowsController {
    pub service_name: String,
    pub display_name: String,
    pub description: String,
    pub desired_access: u32,
    pub service_type: u32,
    pub start_type: u32,
    pub error_control: u32,
    pub tag_id: u32,
    pub load_order_group: String,
    pub dependencies: String,
    pub account_name: String,
    pub password: String,
    pub service_status: ServiceStatus,
    pub controls_accepted: u32,
    /// The pause between two status queries, in milliseconds.
    pub poll_interval_ms: u32,
    /// How many status queries may find the service pending before `start`
    /// or `stop` fails with `OperationTimeout`.
    pub max_polls: u32,
}

impl WindowsController {
    /// A controller for an own-process service that starts with the system,
    /// with every access right, normal error control, and the default
    /// polling bound.
    pub fn new(service_name: &str, display_name: &str, description: &str) -> (r: WindowsController)
        ensures
            r.service_name@ == service_name@,
            r.display_name@ == display_name@,
            r.description@ == description@,
            r.desired_access == SERVICE_ALL_ACCESS,
            r.service_type == SERVICE_WIN32_OWN_PROCESS,
            r.start_type == SERVICE_AUTO_START,
            r.error_control == SERVICE_ERROR_NORMAL,
            r.tag_id == 0,
            r.load_order_group@.len() == 0,
            r.dependencies@.len() == 0,
            r.account_name@.len() == 0,
            r.password@.len() == 0,
            r.service_status == status_record(ServiceState::Stopped, 0),
            r.controls_accepted == ACCEPT_STOP,
            r.poll_interval_ms == POLL_INTERVAL_MS,
            r.max_polls == MAX_POLLS,
    {
        WindowsController {
            service_name: String::from_str(service_name),
            display_name: String::from_str(display_name),
            description: String::from_str(description),
            desired_access: SERVICE_ALL_ACCESS,
            service_type: SERVICE_WIN32_OWN_PROCESS,
            start_type: SERVICE_AUTO_START,
            error_control: SERVICE_ERROR_NORMAL,
            tag_id: 0,
            load_order_group: String::new(),
            dependencies: String::new(),
            account_name: String::new(),
            password: String::new(),
            service_status: ServiceStatus::new(ServiceState::Stopped, 0),
            controls_accepted: ACCEPT_STOP,
            poll_interval_ms: POLL_INTERVAL_MS,
            max_polls: MAX_POLLS,
        }
    }
}

impl ControllerInterface for WindowsController {
    open spec fn create_steps(&self, exe: Seq<char>) -> Seq<StepView> {
        windows_create_steps(*self, exe)
    }

    open spec fn delete_steps(&self) -> Seq<StepView> {
        windows_delete_steps(self.service_name@)
    }

    open spec fn start_steps(&self) -> Seq<StepView> {
        windows_start_steps(self.service_name@)
    }

    open spec fn stop_steps(&self) -> Seq<StepView> {
        windows_stop_steps(self.service_name@)
    }

    open spec fn poll_interval(&self) -> u32 {
        self.poll_interval_ms
    }

    open spec fn poll_limit(&self) -> nat {
        self.max_polls as nat
    }

    fn create(&self, exe_path: &str) -> (r: Operation) {
        let mut steps: Vec<Step> = Vec::new();
        let action = Action::CreateService {
            name: self.service_name.clone(),
            display_name: self.display_name.clone(),
            binary_path: String::from_str(exe_path),
            description: self.description.clone(),
            desired_access: self.desired_access,
            service_type: self.service_type,
            start_type: self.start_type,
            error_control: self.error_control,
        };
        push_step(&mut steps, required(action, String::from_str("CreateService")));
        assert(steps_view(steps@) =~= windows_create_steps(*self, exe_path@));
        Operation::new(steps, self.poll_interval_ms, self.max_polls)
    }

    fn delete(&self) -> (r: Operation) {
        let mut steps: Vec<Step> = Vec::new();
        push_step(&mut steps, best_effort(Action::StopService { name: self.service_name.clone() }));
        push_step(
            &mut steps,
            wait_while(self.service_name.clone(), ServiceState::StopPending, None, false, String::new()),
        );
        push_step(
            &mut steps,
            required(Action::DeleteService { name: self.service_name.clone() }, String::from_str("DeleteService")),
        );
        assert(steps_view(steps@) =~= windows_delete_steps(self.service_name@));
        Operation::new(steps, self.poll_interval_ms, self.max_polls)
    }

    fn start(&self) -> (r: Operation) {
        let mut steps: Vec<Step> = Vec::new();
        push_step(
            &mut steps,
            required(Action::StartService { name: self.service_name.clone() }, String::from_str("StartService")),
        );
        push_step(
            &mut steps,
            wait_while(
                self.service_name.clone(),
                ServiceState::StartPending,
                Some(ServiceState::Running),
                true,
                String::from_str("Failed to start service"),
            ),
        );
        assert(steps_view(steps@) =~= windows_start_steps(self.service_name@));
        Operation::new(steps, self.poll_interval_ms, self.max_polls)
    }

    fn stop(&self) -> (r: Operation) {
        let mut steps: Vec<Step> = Vec::new();
        push_step(
            &mut steps,
            required(
                Action::StopService { name: self.service_name.clone() },
                String::from_str("ControlService: failed to stop service"),
            ),
        );
        push_step(
            &mut steps,
            wait_while(
                self.service_name.clone(),
                ServiceState::StopPending,
                Some(ServiceState::Stopped),
                true,
                String::from_str("Failed to stop service"),
            ),
        );
        assert(steps_view(steps@) =~= windows_stop_steps(self.service_name@));
        Operation::new(steps, self.poll_interval_ms, self.max_polls)
    }
}

/// Whatever the service manager reports and however long it polls,
/// `start` succeeds only on the outcome that reports the service running.
pub proof fn lemma_start_ok_only_when_running(name: Seq<char>, max_polls: nat, s: RunState, o: Outcome)
    requires
        s.verdict is None,
        s.pos < 2,
    ensures
        after_outcome(windows_start_steps(name), max_polls, s, o).verdict == Some(
            Ok::<(), (ErrorKind, Seq<char>)>(()),
        ) ==> s.pos == 1 && reports_state(o, state_code(ServiceState::Running)),
{
    lemma_success_needs_expected_state(windows_start_steps(name), max_polls, s, o);
}

/// Whatever the service manager reports and however long it polls, `stop`
/// succeeds only on the outcome that reports the service stopped.
pub proof fn lemma_stop_ok_only_when_stopped(name: Seq<char>, max_polls: nat, s: RunState, o: Outcome)
    requires
        s.verdict is None,
        s.pos < 2,
    ensures
        after_outcome(windows_stop_steps(name), max_polls, s, o).verdict == Some(
            Ok::<(), (ErrorKind, Seq<char>)>(()),
        ) ==> s.pos == 1 && reports_state(o, state_code(ServiceState::Stopped)),
{
    lemma_success_needs_expected_state(windows_stop_steps(name), max_polls, s, o);
}

} // verus!
