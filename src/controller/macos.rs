use vstd::prelude::*;
use crate::controller::ControllerInterface;
use crate::plan::{
    command_step, command_view, opt_view, push_step, required, steps_view, Action,
    ActionView, Operation, Step, StepView, MAX_POLLS, POLL_INTERVAL_MS,
};
use crate::text::{concat, concat3};

verus! {

/// The property list of a launchd daemon labelled `name`, whose program is
/// `/usr/local/bin/<name>`.
pub open spec fn service_plist(name: Seq<char>) -> Seq<char> {
    "<?xml version=\"1.0\" encoding=\"UTF-8\"?>\n<!DOCTYPE plist PUBLIC \"-//Apple//DTD PLIST 1.0//EN\" \"http://www.apple.com/DTDs/PropertyList-1.0.dtd\">\n<plist version=\"1.0\">\n<dict>\n    <key>Label</key>\n    <string>"@
        + name + "</string>\n    <key>ProgramArguments</key>\n    <array>\n\t    <string>/usr/local/bin/"@
        + name + "</string>\n    </array>\n</dict>\n</plist>\n"@
}

/// The path of the property list of daemon `name`.
pub open spec fn plist_path(name: Seq<char>) -> Seq<char> {
    "/Library/LaunchDaemons/"@ + name + ".plist"@
}

/// A `launchctl` step; if it must succeed, a failure to start `launchctl`
/// is reported after `context`.
pub open spec fn launchctl(verb: Seq<char>, target: Seq<char>, must_succeed: bool, context: Seq<char>) -> StepView {
    command_view("launchctl"@, verb, Some(target), must_succeed, context)
}

/// The steps of `create`: write the property list (the given one, or the
/// generated one) and load it.
pub open spec fn macos_create_steps(name: Seq<char>, plist: Option<Seq<char>>) -> Seq<StepView> {
    let content = match plist {
        Some(p) => p,
        None => service_plist(name),
    };
    seq![
        StepView {
            action: ActionView::WriteFile { path: plist_path(name), content },
            must_succeed: true,
            context: "Failed to write "@ + plist_path(name),
            wait: None,
        },
        launchctl("load"@, plist_path(name), true, "Failed to load plist "@ + plist_path(name)),
    ]
}

/// The steps of `delete`: stop and unload the daemon on a best-effort basis,
/// then remove its property list (a missing file is reported as not found).
pub open spec fn macos_delete_steps(name: Seq<char>) -> Seq<StepView> {
    seq![
        launchctl("stop"@, name, false, Seq::empty()),
        launchctl("unload"@, plist_path(name), false, Seq::empty()),
        StepView {
            action: ActionView::RemoveFile { path: plist_path(name) },
            must_succeed: true,
            context: "Failed to delete "@ + plist_path(name),
            wait: None,
        },
    ]
}

/// The property list of a launchd daemon labelled `name`.
pub fn gen_service_plist(name: &str) -> (r: String)
    ensures
        r@ == service_plist(name@),
{
    let mut r = String::from_str(
        "<?xml version=\"1.0\" encoding=\"UTF-8\"?>\n<!DOCTYPE plist PUBLIC \"-//Apple//DTD PLIST 1.0//EN\" \"http://www.apple.com/DTDs/PropertyList-1.0.dtd\">\n<plist version=\"1.0\">\n<dict>\n    <key>Label</key>\n    <string>",
    );
    r.append(name);
    r.append("</string>\n    <key>ProgramArguments</key>\n    <array>\n\t    <string>/usr/local/bin/");
    r.append(name);
    r.append("</string>\n    </array>\n</dict>\n</plist>\n");
    r
}

/// Manages a daemon of launchd.
pub struct MacosController {
    pub service_name: String,
    pub display_name: String,
    pub description: String,
    /// The property list to install in place of the generated one, if any.
    pub plist: Option<String>,
}

impl MacosController {
    /// A controller for daemon `service_name` with the generated property
    /// list.
    pub fn new(service_name: &str, display_name: &str, description: &str) -> (r: MacosController)
        ensures
            r.service_name@ == service_name@,
            r.display_name@ == display_name@,
            r.description@ == description@,
            r.plist is None,
    {
        MacosController {
            service_name: String::from_str(service_name),
            display_name: String::from_str(display_name),
            description: String::from_str(description),
            plist: None,
        }
    }

    /// The path of the daemon's property list.
    pub fn get_plist_path(&self) -> (r: String)
        ensures
            r@ == plist_path(self.service_name@),
    {
        concat3("/Library/LaunchDaemons/", self.service_name.as_str(), ".plist")
    }

    /// The step that writes the property list to `path`.
    fn write_plist(&self, path: &str) -> (r: Step)
        ensures
            r@ == (StepView {
                action: ActionView::WriteFile {
                    path: path@,
                    content: match opt_view(self.plist) {
                        Some(p) => p,
                        None => service_plist(self.service_name@),
                    },
                },
                must_succeed: true,
                context: "Failed to write "@ + path@,
                wait: None,
            }),
    {
        let content = match &self.plist {
            Some(p) => p.clone(),
            None => gen_service_plist(self.service_name.as_str()),
        };
        required(
            Action::WriteFile { path: String::from_str(path), content },
            concat("Failed to write ", path),
        )
    }
}

impl ControllerInterface for MacosController {
    open spec fn create_steps(&self, exe: Seq<char>) -> Seq<StepView> {
        macos_create_steps(self.service_name@, opt_view(self.plist))
    }

    open spec fn delete_steps(&self) -> Seq<StepView> {
        macos_delete_steps(self.service_name@)
    }

    open spec fn start_steps(&self) -> Seq<StepView> {
        seq![launchctl("start"@, self.service_name@, true, "Failed to start "@ + self.service_name@)]
    }

    open spec fn stop_steps(&self) -> Seq<StepView> {
        seq![launchctl("stop"@, self.service_name@, true, "Failed to stop "@ + self.service_name@)]
    }

    open spec fn poll_interval(&self) -> u32 {
        POLL_INTERVAL_MS
    }

    open spec fn poll_limit(&self) -> nat {
        MAX_POLLS as nat
    }

    fn create(&self, exe_path: &str) -> (r: Operation) {
        let path = self.get_plist_path();
        let mut steps: Vec<Step> = Vec::new();
        push_step(&mut steps, self.write_plist(path.as_str()));
        push_step(&mut steps, command_step("launchctl", "load", Some(path.as_str()), true, concat("Failed to load plist ", path.as_str())));
        assert(steps_view(steps@) =~= macos_create_steps(self.service_name@, opt_view(self.plist)));
        Operation::new(steps, POLL_INTERVAL_MS, MAX_POLLS)
    }

    fn delete(&self) -> (r: Operation) {
        let path = self.get_plist_path();
        let mut steps: Vec<Step> = Vec::new();
        push_step(&mut steps, command_step("launchctl", "stop", Some(self.service_name.as_str()), false, String::new()));
        push_step(&mut steps, command_step("launchctl", "unload", Some(path.as_str()), false, String::new()));
        let context = concat("Failed to delete ", path.as_str());
        push_step(&mut steps, required(Action::RemoveFile { path }, context));
        assert(steps_view(steps@) =~= macos_delete_steps(self.service_name@));
        Operation::new(steps, POLL_INTERVAL_MS, MAX_POLLS)
    }

    fn start(&self) -> (r: Operation) {
        let mut steps: Vec<Step> = Vec::new();
        push_step(&mut steps, command_step("launchctl", "start", Some(self.service_name.as_str()), true, concat("Failed to start ", self.service_name.as_str())));
        assert(steps_view(steps@) =~= self.start_steps());
        Operation::new(steps, POLL_INTERVAL_MS, MAX_POLLS)
    }

    fn stop(&self) -> (r: Operation) {
        let mut steps: Vec<Step> = Vec::new();
        push_step(&mut steps, command_step("launchctl", "stop", Some(self.service_name.as_str()), true, concat("Failed to stop ", self.service_name.as_str())));
        assert(steps_view(steps@) =~= self.stop_steps());
        Operation::new(steps, POLL_INTERVAL_MS, MAX_POLLS)
    }
}

} // verus!
