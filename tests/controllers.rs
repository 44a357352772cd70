use std::collections::{BTreeMap, BTreeSet};

use ceviche::controller::dummy::DummyController;
use ceviche::controller::linux::LinuxController;
use ceviche::controller::macos::{gen_service_plist, MacosController};
use ceviche::controller::windows::{WindowsController, SERVICE_ALL_ACCESS, SERVICE_AUTO_START};
use ceviche::controller::ControllerInterface;
use ceviche::plan::{Action, Failure, Handle, Operation, Outcome};
use ceviche::{Error, ErrorKind};

/// A host kept in memory: files, directories, registered services and their
/// state numbers, and the helper commands that were run.
#[derive(Default)]
struct FakeHost {
    files: BTreeMap<String, String>,
    dirs: BTreeSet<String>,
    services: BTreeMap<String, u32>,
    commands: Vec<String>,
    sleeps: u32,
    /// Status answers for the next queries, before the real state.
    scripted: Vec<u32>,
}

fn missing_service() -> Outcome {
    Outcome::OpenFailed { handle: Handle::Service, reason: Failure::Missing, detail: "missing".to_string() }
}

impl FakeHost {
    fn perform(&mut self, a: &Action) -> Outcome {
        match a {
            Action::WriteFile { path, content } => {
                self.files.insert(path.clone(), content.clone());
                Outcome::Done
            }
            Action::CreateDir { path } => {
                self.dirs.insert(path.clone());
                Outcome::Done
            }
            Action::RemoveFile { path } => match self.files.remove(path) {
                Some(_) => Outcome::Done,
                None => Outcome::Failed { reason: Failure::Missing, detail: "No such file or directory".to_string() },
            },
            Action::RemoveDirAll { path } => {
                let prefix = format!("{}/", path);
                self.files.retain(|f, _| !f.starts_with(&prefix));
                if self.dirs.remove(path) {
                    Outcome::Done
                } else {
                    Outcome::Failed { reason: Failure::Missing, detail: "missing".to_string() }
                }
            }
            Action::Run { program, verb, target } => {
                let line = match target {
                    Some(t) => format!("{} {} {}", program, verb, t),
                    None => format!("{} {}", program, verb),
                };
                self.commands.push(line);
                Outcome::Done
            }
            Action::CreateService { name, .. } => {
                if self.services.contains_key(name) {
                    Outcome::Failed { reason: Failure::Exists, detail: "exists".to_string() }
                } else {
                    self.services.insert(name.clone(), 1);
                    Outcome::Done
                }
            }
            Action::StartService { name } => match self.services.get_mut(name) {
                Some(s) => {
                    *s = 4;
                    Outcome::Done
                }
                None => missing_service(),
            },
            Action::StopService { name } => match self.services.get_mut(name) {
                Some(s) => {
                    *s = 1;
                    Outcome::Done
                }
                None => missing_service(),
            },
            Action::QueryStatus { name } => {
                if !self.scripted.is_empty() {
                    return Outcome::Status { state: self.scripted.remove(0) };
                }
                match self.services.get(name) {
                    Some(s) => Outcome::Status { state: *s },
                    None => missing_service(),
                }
            }
            Action::DeleteService { name } => match self.services.remove(name) {
                Some(_) => Outcome::Done,
                None => missing_service(),
            },
            Action::Sleep { .. } => {
                self.sleeps += 1;
                Outcome::Done
            }
        }
    }

    fn run(&mut self, mut op: Operation) -> Result<(), Error> {
        while let Some(a) = op.next() {
            let o = self.perform(a);
            op.record(o);
        }
        assert!(op.is_done());
        op.finish()
    }
}

#[test]
fn systemd_unit_exec_start_is_the_executable() {
    let c = LinuxController::new("svc1", "Service One", "The first service");
    let unit = c.get_service_unit_content("/usr/local/bin/svc1");
    let lines: Vec<&str> = unit.lines().filter(|l| l.starts_with("ExecStart=")).collect();
    assert_eq!(lines, vec!["ExecStart=/usr/local/bin/svc1"]);
    assert_eq!(&lines[0]["ExecStart=".len()..], "/usr/local/bin/svc1");
    assert_eq!(
        unit,
        "\n[Unit]\nDescription=svc1\n\n[Service]\nExecStart=/usr/local/bin/svc1\n\n[Install]\nWantedBy=multi-user.target"
    );
}

#[test]
fn systemd_paths() {
    let c = LinuxController::new("svc1", "Service One", "The first service");
    assert_eq!(c.get_service_file_name(), "svc1.service");
    assert_eq!(c.get_service_unit_path(), "/lib/systemd/system/svc1.service");
    assert_eq!(c.get_service_dropin_dir(), "/lib/systemd/system/svc1.service.d");
    assert_eq!(c.get_service_dropin_path(), "/lib/systemd/system/svc1.service.d/svc1.conf");
}

#[test]
fn systemd_lifecycle_leaves_no_registration() {
    let mut host = FakeHost::default();
    let c = LinuxController::new("svc1", "Service One", "The first service");
    host.run(c.create("/usr/local/bin/svc1")).unwrap();
    assert!(host.files.contains_key("/lib/systemd/system/svc1.service"));
    host.run(c.start()).unwrap();
    host.run(c.stop()).unwrap();
    host.run(c.delete()).unwrap();
    assert!(host.files.is_empty());
    assert_eq!(
        host.commands,
        vec![
            "systemctl daemon-reload",
            "systemctl enable svc1",
            "systemctl start svc1",
            "systemctl stop svc1",
            "systemctl stop svc1",
            "systemctl disable svc1",
            "systemctl daemon-reload",
            "systemctl reset-failed",
        ]
    );
    // Deleting again is not fatal: it reports that nothing was there.
    let again = host.run(c.delete());
    assert_eq!(again.unwrap_err().kind, ErrorKind::NotFound);
    assert!(host.files.is_empty());
}

#[test]
fn systemd_create_with_dropin_config() {
    let mut host = FakeHost::default();
    let mut c = LinuxController::new("svc1", "Service One", "The first service");
    c.config = Some("[Service]\nEnvironment=A=1\n".to_string());
    host.run(c.create("/opt/svc1")).unwrap();
    assert!(host.dirs.contains("/lib/systemd/system/svc1.service.d"));
    assert_eq!(
        host.files.get("/lib/systemd/system/svc1.service.d/svc1.conf").map(|s| s.as_str()),
        Some("[Service]\nEnvironment=A=1\n")
    );
    host.run(c.delete()).unwrap();
    assert!(host.files.is_empty());
    assert!(host.dirs.is_empty());
}

#[test]
fn write_failure_is_an_io_error_with_the_path() {
    let c = LinuxController::new("svc1", "Service One", "The first service");
    let mut op = c.create("/usr/local/bin/svc1");
    match op.next() {
        Some(Action::WriteFile { path, .. }) => assert_eq!(path, "/lib/systemd/system/svc1.service"),
        _ => panic!("the unit file is written first"),
    }
    op.record(Outcome::Failed { reason: Failure::Io, detail: "Permission denied".to_string() });
    assert!(op.next().is_none());
    let e = op.finish().unwrap_err();
    assert_eq!(e.kind, ErrorKind::IOFailure);
    assert_eq!(e.message(), "Failed to write /lib/systemd/system/svc1.service: Permission denied");
}

#[test]
fn helper_failure_carries_its_stderr() {
    let c = LinuxController::new("svc1", "Service One", "The first service");
    let mut op = c.start();
    assert!(matches!(op.next(), Some(Action::Run { .. })));
    op.record(Outcome::Exited { code: 5, stderr: "Unit svc1.service not found.".to_string() });
    let e = op.finish().unwrap_err();
    assert_eq!(e.kind, ErrorKind::ExternalProcessFailure);
    assert_eq!(e.message(), "Command \"start\" failed (5): Unit svc1.service not found.");
}

#[test]
fn helper_that_cannot_start_names_its_verb() {
    let c = LinuxController::new("svc1", "Service One", "The first service");
    let mut op = c.stop();
    op.record(Outcome::Failed { reason: Failure::Spawn, detail: "No such file or directory".to_string() });
    let e = op.finish().unwrap_err();
    assert_eq!(e.kind, ErrorKind::ExternalProcessFailure);
    assert_eq!(e.message(), "Failed to execute command stop: No such file or directory");
}

#[test]
fn best_effort_helper_exit_is_passed_over() {
    let c = LinuxController::new("svc1", "Service One", "The first service");
    let mut op = c.delete();
    op.record(Outcome::Exited { code: 1, stderr: "not loaded".to_string() });
    assert!(matches!(op.next(), Some(Action::Run { .. })));
}

#[test]
fn windows_wait_without_status_fails() {
    let c = WindowsController::new("svc1", "Service One", "The first service");
    let mut op = c.start();
    op.record(Outcome::Done);
    assert!(matches!(op.next(), Some(Action::QueryStatus { .. })));
    op.record(Outcome::Done);
    let e = op.finish().unwrap_err();
    assert_eq!(e.kind, ErrorKind::Other);
    assert_eq!(e.message(), "Failed to start service: no status was reported");
}

#[test]
fn launchd_plist_and_lifecycle() {
    let plist = gen_service_plist("svc1");
    assert!(plist.contains("<key>Label</key>\n    <string>svc1</string>"));
    assert!(plist.contains("<key>ProgramArguments</key>\n    <array>\n\t    <string>/usr/local/bin/svc1</string>"));
    let mut host = FakeHost::default();
    let c = MacosController::new("svc1", "Service One", "The first service");
    assert_eq!(c.get_plist_path(), "/Library/LaunchDaemons/svc1.plist");
    host.run(c.create("/usr/local/bin/svc1")).unwrap();
    assert_eq!(host.files.get("/Library/LaunchDaemons/svc1.plist"), Some(&plist));
    host.run(c.start()).unwrap();
    host.run(c.stop()).unwrap();
    host.run(c.delete()).unwrap();
    assert!(host.files.is_empty());
    assert_eq!(host.run(c.delete()).unwrap_err().kind, ErrorKind::NotFound);
    assert_eq!(host.commands[0], "launchctl load /Library/LaunchDaemons/svc1.plist");
}

#[test]
fn launchd_custom_plist_is_written_as_given() {
    let mut host = FakeHost::default();
    let mut c = MacosController::new("svc1", "Service One", "The first service");
    c.plist = Some("<plist/>".to_string());
    host.run(c.create("/usr/local/bin/svc1")).unwrap();
    assert_eq!(host.files.get("/Library/LaunchDaemons/svc1.plist").map(|s| s.as_str()), Some("<plist/>"));
}

#[test]
fn windows_lifecycle_leaves_no_registration() {
    let mut host = FakeHost::default();
    let c = WindowsController::new("svc1", "Service One", "The first service");
    assert_eq!(c.desired_access, SERVICE_ALL_ACCESS);
    assert_eq!(c.start_type, SERVICE_AUTO_START);
    host.run(c.create("C:\\svc1.exe")).unwrap();
    assert_eq!(host.run(c.create("C:\\svc1.exe")).unwrap_err().kind, ErrorKind::AlreadyExists);
    host.scripted = vec![2, 2];
    host.run(c.start()).unwrap();
    assert_eq!(host.sleeps, 2);
    assert_eq!(host.services.get("svc1"), Some(&4));
    host.run(c.stop()).unwrap();
    host.run(c.delete()).unwrap();
    assert!(host.services.is_empty());
    let again = host.run(c.delete());
    assert_eq!(again.unwrap_err().kind, ErrorKind::NotFound);
}

#[test]
fn windows_start_times_out_when_pending_persists() {
    let mut host = FakeHost::default();
    let mut c = WindowsController::new("svc1", "Service One", "The first service");
    c.max_polls = 3;
    host.run(c.create("C:\\svc1.exe")).unwrap();
    host.scripted = vec![2, 2, 2, 2, 2];
    let e = host.run(c.start()).unwrap_err();
    assert_eq!(e.kind, ErrorKind::OperationTimeout);
    assert_eq!(e.message(), "Failed to start service: timed out");
    assert_eq!(host.sleeps, 3);
}

#[test]
fn windows_start_fails_when_not_running_afterwards() {
    let mut host = FakeHost::default();
    let c = WindowsController::new("svc1", "Service One", "The first service");
    host.run(c.create("C:\\svc1.exe")).unwrap();
    host.scripted = vec![1];
    let e = host.run(c.start()).unwrap_err();
    assert_eq!(e.kind, ErrorKind::Other);
    assert_eq!(e.message(), "Failed to start service");
}

#[test]
fn windows_start_of_missing_service_is_not_found() {
    let mut host = FakeHost::default();
    let c = WindowsController::new("svc1", "Service One", "The first service");
    let e = host.run(c.start()).unwrap_err();
    assert_eq!(e.kind, ErrorKind::NotFound);
    assert_eq!(e.message(), "OpenServiceW: missing");
}

#[test]
fn unavailable_manager_is_reported_as_such() {
    let c = WindowsController::new("svc1", "Service One", "The first service");
    let mut op = c.create("C:\\svc1.exe");
    op.record(Outcome::OpenFailed {
        handle: Handle::Manager,
        reason: Failure::Unavailable,
        detail: "Access is denied.".to_string(),
    });
    let e = op.finish().unwrap_err();
    assert_eq!(e.kind, ErrorKind::ResourceUnavailable);
    assert_eq!(e.message(), "OpenSCManager: Access is denied.");
}

#[test]
fn dummy_operations_succeed_at_once() {
    let mut c = DummyController::new("svc1", "Service One", "The first service");
    for op in [c.create("x"), c.delete(), c.start(), c.stop()] {
        assert!(op.next().is_none());
        assert!(op.finish().is_ok());
    }
    assert!(c.register().is_err());
}

#[test]
fn error_new_keeps_the_message() {
    let e = Error::new("boom");
    assert_eq!(e.kind, ErrorKind::Other);
    assert_eq!(e.message(), "boom");
    let e = Error::with_kind(ErrorKind::IOFailure, "disk".to_string());
    assert_eq!(e.kind, ErrorKind::IOFailure);
}

#[test]
fn windows_create_of_existing_service_names_the_call() {
    let c = WindowsController::new("svc1", "Service One", "The first service");
    let mut op = c.create("C:\\svc1.exe");
    op.record(Outcome::Failed { reason: Failure::Exists, detail: "The specified service already exists.".to_string() });
    let e = op.finish().unwrap_err();
    assert_eq!(e.kind, ErrorKind::AlreadyExists);
    assert_eq!(e.message(), "CreateService: The specified service already exists.");
}

#[test]
fn windows_rejected_stop_is_reported_alone() {
    let c = WindowsController::new("svc1", "Service One", "The first service");
    let mut op = c.stop();
    op.record(Outcome::Failed { reason: Failure::Io, detail: "The service has not been started.".to_string() });
    assert!(op.next().is_none());
    let e = op.finish().unwrap_err();
    assert_eq!(e.message(), "ControlService: failed to stop service");
}

#[test]
fn windows_delete_of_absent_service_names_open_service() {
    let mut host = FakeHost::default();
    let c = WindowsController::new("svc1", "Service One", "The first service");
    let e = host.run(c.delete()).unwrap_err();
    assert_eq!(e.kind, ErrorKind::NotFound);
    assert_eq!(e.message(), "OpenServiceW: missing");
}

#[test]
fn windows_delete_goes_on_when_the_stop_never_ends() {
    let mut host = FakeHost::default();
    let mut c = WindowsController::new("svc1", "Service One", "The first service");
    c.max_polls = 2;
    host.run(c.create("C:\\svc1.exe")).unwrap();
    host.scripted = vec![3, 3, 3, 3];
    host.run(c.delete()).unwrap();
    assert!(host.services.is_empty());
    assert_eq!(host.sleeps, 2);
}

#[test]
fn launchctl_that_cannot_start_names_the_plist() {
    let c = MacosController::new("svc1", "Service One", "The first service");
    let mut op = c.create("/usr/local/bin/svc1");
    op.record(Outcome::Done);
    op.record(Outcome::Failed { reason: Failure::Spawn, detail: "No such file or directory".to_string() });
    let e = op.finish().unwrap_err();
    assert_eq!(e.kind, ErrorKind::ExternalProcessFailure);
    assert_eq!(e.message(), "Failed to load plist /Library/LaunchDaemons/svc1.plist: No such file or directory");
    let mut op = c.start();
    op.record(Outcome::Failed { reason: Failure::Spawn, detail: "denied".to_string() });
    assert_eq!(op.finish().unwrap_err().message(), "Failed to start svc1: denied");
    let mut op = c.stop();
    op.record(Outcome::Failed { reason: Failure::Spawn, detail: "denied".to_string() });
    assert_eq!(op.finish().unwrap_err().message(), "Failed to stop svc1: denied");
}

#[test]
fn launchctl_failure_status_carries_stderr() {
    let c = MacosController::new("svc1", "Service One", "The first service");
    let mut op = c.start();
    op.record(Outcome::Exited { code: 3, stderr: "Could not find service".to_string() });
    let e = op.finish().unwrap_err();
    assert_eq!(e.kind, ErrorKind::ExternalProcessFailure);
    assert_eq!(e.message(), "Command \"start\" failed (3): Could not find service");
}
