use vstd::prelude::*;
use crate::controller::ControllerInterface;
use crate::plan::{
    command_step, command_view, opt_str_view, opt_view, best_effort, push_step, required, steps_view, Action, ActionView, Operation, Step,
    StepView, MAX_POLLS, POLL_INTERVAL_MS,
};
use crate::text::{concat, concat3};

verus! {

/// The directory of the systemd unit files that the service installs.
pub open spec fn unit_dir() -> Seq<char> {
    "/lib/systemd/system/"@
}

/// The file name of the unit of service `name`.
pub open spec fn service_file_name(name: Seq<char>) -> Seq<char> {
    name + ".service"@
}

/// The path of the unit file of service `name`.
pub open spec fn unit_path(name: Seq<char>) -> Seq<char> {
    unit_dir() + service_file_name(name)
}

/// The drop-in directory of service `name`.
pub open spec fn dropin_dir(name: Seq<char>) -> Seq<char> {
    unit_dir() + service_file_name(name) + ".d"@
}

/// The path of the drop-in configuration of service `name`.
pub open spec fn dropin_path(name: Seq<char>) -> Seq<char> {
    dropin_dir(name) + "/"@ + name + ".conf"@
}

/// The unit file of service `name`, whose executable is at `exe`.
pub open spec fn unit_content(name: Seq<char>, exe: Seq<char>) -> Seq<char> {
    "\n[Unit]\nDescription="@ + name + "\n\n[Service]\nExecStart="@ + exe
        + "\n\n[Install]\nWantedBy=multi-user.target"@
}

/// A `systemctl` step whose failure ends the operation.
pub open spec fn systemctl(verb: Seq<char>, target: Option<Seq<char>>) -> StepView {
    command_view("systemctl"@, verb, target, true, "Failed to execute command "@ + verb)
}

/// A `systemctl` step whose failure is passed over.
pub open spec fn systemctl_best_effort(verb: Seq<char>, target: Option<Seq<char>>) -> StepView {
    command_view("systemctl"@, verb, target, false, Seq::empty())
}

/// A step that writes `content` to `path`.
pub open spec fn write_step(path: Seq<char>, content: Seq<char>) -> StepView {
    StepView {
        action: ActionView::WriteFile { path, content },
        must_succeed: true,
        context: "Failed to write "@ + path,
        wait: None,
    }
}

/// The steps of `create`: write the unit file and, with a configuration,
/// the drop-in directory and file; then reload systemd and enable the unit.
pub open spec fn linux_create_steps(name: Seq<char>, config: Option<Seq<char>>, exe: Seq<char>) -> Seq<
    StepView,
> {
    let files = match config {
        None => seq![write_step(unit_path(name), unit_content(name, exe))],
        Some(c) => seq![
            write_step(unit_path(name), unit_content(name, exe)),
            StepView {
                action: ActionView::CreateDir { path: dropin_dir(name) },
                must_succeed: true,
                context: "Failed to create "@ + dropin_dir(name),
                wait: None,
            },
            write_step(dropin_path(name), c),
        ],
    };
    files + seq![systemctl("daemon-reload"@, None), systemctl("enable"@, Some(name))]
}

/// The steps of `delete`: stop and disable the unit and remove its drop-in
/// directory on a best-effort basis, remove the unit file (a missing file is
/// reported as not found), then clean up systemd's state on a best-effort
/// basis.
pub open spec fn linux_delete_steps(name: Seq<char>) -> Seq<StepView> {
    seq![
        systemctl_best_effort("stop"@, Some(name)),
        systemctl_best_effort("disable"@, Some(name)),
        StepView {
            action: ActionView::RemoveDirAll { path: dropin_dir(name) },
            must_succeed: false,
            context: Seq::empty(),
            wait: None,
        },
        StepView {
            action: ActionView::RemoveFile { path: unit_path(name) },
            must_succeed: true,
            context: "Failed to delete "@ + unit_path(name),
            wait: None,
        },
        systemctl_best_effort("daemon-reload"@, None),
        systemctl_best_effort("reset-failed"@, None),
    ]
}

/// Manages a service of systemd.
pub struct LinuxController {
    pub service_name: String,
    pub display_name: String,
    pub description: String,
    /// A drop-in configuration written beside the unit file, if any.
    pub config: Option<String>,
}

fn run_step(verb: &str, target: Option<&str>, must_succeed: bool) -> (r: Step)
    ensures
        r@ == command_view(
            "systemctl"@,
            verb@,
            opt_str_view(target),
            must_succeed,
            if must_succeed { "Failed to execute command "@ + verb@ } else { Seq::empty() },
        ),
{
    let context = if must_succeed { concat("Failed to execute command ", verb) } else { String::new() };
    command_step("systemctl", verb, target, must_succeed, context)
}

impl LinuxController {
    /// A controller for service `service_name`, without drop-in
    /// configuration.
    pub fn new(service_name: &str, display_name: &str, description: &str) -> (r: LinuxController)
        ensures
            r.service_name@ == service_name@,
            r.display_name@ == display_name@,
            r.description@ == description@,
            r.config is None,
    {
        LinuxController {
            service_name: String::from_str(service_name),
            display_name: String::from_str(display_name),
            description: String::from_str(description),
            config: None,
        }
    }

    /// The file name of the service's unit.
    pub fn get_service_file_name(&self) -> (r: String)
        ensures
            r@ == service_file_name(self.service_name@),
    {
        concat(self.service_name.as_str(), ".service")
    }

    /// The path of the service's unit file.
    pub fn get_service_unit_path(&self) -> (r: String)
        ensures
            r@ == unit_path(self.service_name@),
    {
        let f = self.get_service_file_name();
        concat("/lib/systemd/system/", f.as_str())
    }

    /// The service's drop-in directory.
    pub fn get_service_dropin_dir(&self) -> (r: String)
        ensures
            r@ == dropin_dir(self.service_name@),
    {
        let f = self.get_service_file_name();
        concat3("/lib/systemd/system/", f.as_str(), ".d")
    }

    /// The path of the service's drop-in configuration file.
    pub fn get_service_dropin_path(&self) -> (r: String)
        ensures
            r@ == dropin_path(self.service_name@),
    {
        let d = self.get_service_dropin_dir();
        let mut r = concat3(d.as_str(), "/", self.service_name.as_str());
        r.append(".conf");
        r
    }

    /// The unit file of the service, whose executable is at `exe_path`.
    pub fn get_service_unit_content(&self, exe_path: &str) -> (r: String)
        ensures
            r@ == unit_content(self.service_name@, exe_path@),
    {
        let mut r = concat("\n[Unit]\nDescription=", self.service_name.as_str());
        r.append("\n\n[Service]\nExecStart=");
        r.append(exe_path);
        r.append("\n\n[Install]\nWantedBy=multi-user.target");
        r
    }

    /// The steps that write the unit file and the drop-in configuration.
    fn write_service_config(&self, exe_path: &str, steps: &mut Vec<Step>)
        ensures
            steps_view(final(steps)@) == steps_view(old(steps)@) + match opt_view(self.config) {
                None => seq![write_step(unit_path(self.service_name@), unit_content(self.service_name@, exe_path@))],
                Some(c) => seq![
                    write_step(unit_path(self.service_name@), unit_content(self.service_name@, exe_path@)),
                    StepView {
                        action: ActionView::CreateDir { path: dropin_dir(self.service_name@) },
                        must_succeed: true,
                        context: "Failed to create "@ + dropin_dir(self.service_name@),
                        wait: None,
                    },
                    write_step(dropin_path(self.service_name@), c),
                ],
            },
    {
        let ghost start = steps_view(steps@);
        let path = self.get_service_unit_path();
        let context = concat("Failed to write ", path.as_str());
        let content = self.get_service_unit_content(exe_path);
        push_step(steps, required(Action::WriteFile { path, content }, context));
        match &self.config {
            None => {
                assert(steps_view(steps@) =~= start + seq![write_step(unit_path(self.service_name@), unit_content(self.service_name@, exe_path@))]);
            },
            Some(config) => {
                let dir = self.get_service_dropin_dir();
                let context = concat("Failed to create ", dir.as_str());
                push_step(steps, required(Action::CreateDir { path: dir }, context));
                let path = self.get_service_dropin_path();
                let context = concat("Failed to write ", path.as_str());
                push_step(steps, required(Action::WriteFile { path, content: config.clone() }, context));
                assert(steps_view(steps@) =~= start + seq![
                    write_step(unit_path(self.service_name@), unit_content(self.service_name@, exe_path@)),
                    StepView {
                        action: ActionView::CreateDir { path: dropin_dir(self.service_name@) },
                        must_succeed: true,
                        context: "Failed to create "@ + dropin_dir(self.service_name@),
                        wait: None,
                    },
                    write_step(dropin_path(self.service_name@), config@),
                ]);
            },
        }
    }
}

impl ControllerInterface for LinuxController {
    open spec fn create_steps(&self, exe: Seq<char>) -> Seq<StepView> {
        linux_create_steps(self.service_name@, opt_view(self.config), exe)
    }

    open spec fn delete_steps(&self) -> Seq<StepView> {
        linux_delete_steps(self.service_name@)
    }

    open spec fn start_steps(&self) -> Seq<StepView> {
        seq![systemctl("start"@, Some(self.service_name@))]
    }

    open spec fn stop_steps(&self) -> Seq<StepView> {
        seq![systemctl("stop"@, Some(self.service_name@))]
    }

    open spec fn poll_interval(&self) -> u32 {
        POLL_INTERVAL_MS
    }

    open spec fn poll_limit(&self) -> nat {
        MAX_POLLS as nat
    }

    fn create(&self, exe_path: &str) -> (r: Operation) {
        let mut steps: Vec<Step> = Vec::new();
        self.write_service_config(exe_path, &mut steps);
        push_step(&mut steps, run_step("daemon-reload", None, true));
        push_step(&mut steps, run_step("enable", Some(self.service_name.as_str()), true));
        assert(steps_view(steps@) =~= linux_create_steps(self.service_name@, opt_view(self.config), exe_path@));
        Operation::new(steps, POLL_INTERVAL_MS, MAX_POLLS)
    }

    fn delete(&self) -> (r: Operation) {
        let mut steps: Vec<Step> = Vec::new();
        push_step(&mut steps, run_step("stop", Some(self.service_name.as_str()), false));
        push_step(&mut steps, run_step("disable", Some(self.service_name.as_str()), false));
        push_step(&mut steps, best_effort(Action::RemoveDirAll { path: self.get_service_dropin_dir() }));
        let path = self.get_service_unit_path();
        let context = concat("Failed to delete ", path.as_str());
        push_step(&mut steps, required(Action::RemoveFile { path }, context));
        push_step(&mut steps, run_step("daemon-reload", None, false));
        push_step(&mut steps, run_step("reset-failed", None, false));
        assert(steps_view(steps@) =~= linux_delete_steps(self.service_name@));
        Operation::new(steps, POLL_INTERVAL_MS, MAX_POLLS)
    }

    fn start(&self) -> (r: Operation) {
        let mut steps: Vec<Step> = Vec::new();
        push_step(&mut steps, run_step("start", Some(self.service_name.as_str()), true));
        assert(steps_view(steps@) =~= self.start_steps());
        Operation::new(steps, POLL_INTERVAL_MS, MAX_POLLS)
    }

    fn stop(&self) -> (r: Operation) {
        let mut steps: Vec<Step> = Vec::new();
        push_step(&mut steps, run_step("stop", Some(self.service_name.as_str()), true));
        assert(steps_view(steps@) =~= self.stop_steps());
        Operation::new(steps, POLL_INTERVAL_MS, MAX_POLLS)
    }
}

} // verus!
