use vstd::prelude::*;
use crate::controller::linux::{dropin_dir, linux_delete_steps, unit_path, LinuxController};
use crate::controller::macos::{macos_delete_steps, plist_path, MacosController};
use crate::controller::windows::{windows_delete_steps, WindowsController};
use crate::controller::ControllerInterface;
use crate::error::ErrorKind;
use crate::plan::{Handle, Verdict, after_outcome, next_action, ActionView, Failure, Outcome, RunState, StepView};

verus! {

/// A host as the operations see it: the files and directories that exist,
/// the units that systemd has enabled and the property lists that launchd
/// has loaded, and the registered services with their state numbers.
pub ghost struct HostModel {
    pub files: Set<Seq<char>>,
    pub dirs: Set<Seq<char>>,
    pub active: Set<Seq<char>>,
    pub services: Map<Seq<char>, u32>,
}

/// What a helper command does to the host: `systemctl enable` and
/// `launchctl load` activate their target, `systemctl disable` and
/// `launchctl unload` deactivate it, and every other command leaves the
/// host as it is.
pub open spec fn run_effect(h: HostModel, program: Seq<char>, verb: Seq<char>, target: Option<Seq<char>>) -> HostModel {
    match target {
        Some(t) => if (program == "systemctl"@ && verb == "enable"@) || (program == "launchctl"@
            && verb == "load"@) {
            HostModel { active: h.active.insert(t), ..h }
        } else if (program == "systemctl"@ && verb == "disable"@) || (program == "launchctl"@
            && verb == "unload"@) {
            HostModel { active: h.active.remove(t), ..h }
        } else {
            h
        },
        None => h,
    }
}

/// A failure of the given kind, with some text.
pub open spec fn failed(reason: Failure) -> Outcome {
    Outcome::Failed { reason, detail: arbitrary() }
}

/// A failure to open the service's handle, with some text.
pub open spec fn service_missing() -> Outcome {
    Outcome::OpenFailed { handle: Handle::Service, reason: Failure::Missing, detail: arbitrary() }
}

/// What a host that does as it is asked makes of an action: files,
/// services and active units appear and disappear as the action says, and
/// removing what is not there fails with `Missing`.
pub open spec fn host_perform(h: HostModel, a: ActionView) -> (HostModel, Outcome) {
    match a {
        ActionView::WriteFile { path, .. } => (HostModel { files: h.files.insert(path), ..h }, Outcome::Done),
        ActionView::CreateDir { path } => (HostModel { dirs: h.dirs.insert(path), ..h }, Outcome::Done),
        ActionView::RemoveFile { path } => if h.files.contains(path) {
            (HostModel { files: h.files.remove(path), ..h }, Outcome::Done)
        } else {
            (h, failed(Failure::Missing))
        },
        ActionView::RemoveDirAll { path } => if h.dirs.contains(path) {
            (HostModel { dirs: h.dirs.remove(path), ..h }, Outcome::Done)
        } else {
            (h, failed(Failure::Missing))
        },
        ActionView::Run { program, verb, target } => (run_effect(h, program, verb, target), Outcome::Done),
        ActionView::CreateService { name, .. } => if h.services.contains_key(name) {
            (h, failed(Failure::Exists))
        } else {
            (HostModel { services: h.services.insert(name, 1), ..h }, Outcome::Done)
        },
        ActionView::StartService { name } => if h.services.contains_key(name) {
            (HostModel { services: h.services.insert(name, 4), ..h }, Outcome::Done)
        } else {
            (h, service_missing())
        },
        ActionView::StopService { name } => if h.services.contains_key(name) {
            (HostModel { services: h.services.insert(name, 1), ..h }, Outcome::Done)
        } else {
            (h, service_missing())
        },
        ActionView::QueryStatus { name } => if h.services.contains_key(name) {
            (h, Outcome::Status { state: h.services[name] })
        } else {
            (h, service_missing())
        },
        ActionView::DeleteService { name } => if h.services.contains_key(name) {
            (HostModel { services: h.services.remove(name), ..h }, Outcome::Done)
        } else {
            (h, service_missing())
        },
        ActionView::Sleep { .. } => (h, Outcome::Done),
    }
}

/// A run of `steps` that has not begun.
pub open spec fn run_start(n: nat) -> RunState {
    RunState { pos: 0, polls: 0, sleeping: false, verdict: if n == 0 { Some(Ok(())) } else { None } }
}

/// The host and the run after the host performs up to `fuel` actions of
/// the run.
pub open spec fn simulate(
    steps: Seq<StepView>,
    max_polls: nat,
    interval: u32,
    h: HostModel,
    s: RunState,
    fuel: nat,
) -> (HostModel, RunState)
    decreases fuel,
{
    if fuel == 0 {
        (h, s)
    } else {
        match next_action(steps, interval, s) {
            None => (h, s),
            Some(a) => {
                let (h2, o) = host_perform(h, a);
                simulate(steps, max_polls, interval, h2, after_outcome(steps, max_polls, s, o), (fuel - 1) as nat)
            },
        }
    }
}

/// The host and the run after an operation of `steps` in which each step
/// takes one action; a run that still waits at a status query has no
/// verdict yet.
pub open spec fn perform_all(steps: Seq<StepView>, max_polls: nat, interval: u32, h: HostModel) -> (
    HostModel,
    RunState,
) {
    simulate(steps, max_polls, interval, h, run_start(steps.len()), steps.len())
}

/// The verdict is a `NotFound` error.
pub open spec fn is_not_found(v: Verdict) -> bool {
    v matches Some(Err((k, _))) && k == ErrorKind::NotFound
}

/// A run with a step done.
pub open spec fn stepped(s: RunState, n: nat) -> RunState {
    RunState {
        pos: s.pos + 1,
        polls: 0,
        sleeping: false,
        verdict: if s.pos + 1 >= n { Some(Ok(())) } else { None },
    }
}

/// A run that has no verdict is at one of its steps.
pub open spec fn run_ok(n: nat, s: RunState) -> bool {
    s.verdict is None ==> s.pos < n
}

/// An outcome keeps a run at one of its steps until it has a verdict.
pub proof fn lemma_run_ok(steps: Seq<StepView>, mp: nat, s: RunState, o: Outcome)
    requires
        run_ok(steps.len(), s),
    ensures
        run_ok(steps.len(), after_outcome(steps, mp, s, o)),
{
}

/// A run whose steps never remove file `p` leaves it in place.
pub proof fn lemma_keeps_file(
    steps: Seq<StepView>,
    mp: nat,
    iv: u32,
    h: HostModel,
    s: RunState,
    fuel: nat,
    p: Seq<char>,
)
    requires
        h.files.contains(p),
        run_ok(steps.len(), s),
        forall|i: int| 0 <= i < steps.len() ==> !(#[trigger] steps[i].action is RemoveFile),
    ensures
        simulate(steps, mp, iv, h, s, fuel).0.files.contains(p),
    decreases fuel,
{
    if fuel > 0 {
        if let Some(a) = next_action(steps, iv, s) {
            let (h2, o) = host_perform(h, a);
            lemma_run_ok(steps, mp, s, o);
            lemma_keeps_file(steps, mp, iv, h2, after_outcome(steps, mp, s, o), (fuel - 1) as nat, p);
        }
    }
}

/// A run whose steps never delete a service leaves service `name`
/// registered.
pub proof fn lemma_keeps_service(
    steps: Seq<StepView>,
    mp: nat,
    iv: u32,
    h: HostModel,
    s: RunState,
    fuel: nat,
    name: Seq<char>,
)
    requires
        h.services.contains_key(name),
        run_ok(steps.len(), s),
        forall|i: int| 0 <= i < steps.len() ==> !(#[trigger] steps[i].action is DeleteService),
    ensures
        simulate(steps, mp, iv, h, s, fuel).0.services.contains_key(name),
    decreases fuel,
{
    if fuel > 0 {
        if let Some(a) = next_action(steps, iv, s) {
            let (h2, o) = host_perform(h, a);
            lemma_run_ok(steps, mp, s, o);
            lemma_keeps_service(steps, mp, iv, h2, after_outcome(steps, mp, s, o), (fuel - 1) as nat, name);
        }
    }
}

/// The helper commands and verbs that the operations use are told apart.
pub proof fn lemma_helper_words()
    ensures
        "systemctl"@ != "launchctl"@,
        "stop"@ != "load"@,
        "stop"@ != "enable"@,
        "stop"@ != "disable"@,
        "stop"@ != "unload"@,
        "start"@ != "enable"@,
        "start"@ != "disable"@,
        "start"@ != "load"@,
        "start"@ != "unload"@,
        "disable"@ != "enable"@,
        "unload"@ != "load"@,
{
    reveal_strlit("systemctl");
    reveal_strlit("launchctl");
    reveal_strlit("stop");
    reveal_strlit("start");
    reveal_strlit("load");
    reveal_strlit("unload");
    reveal_strlit("enable");
    reveal_strlit("disable");
    assert("systemctl"@[0] != "launchctl"@[0]);
    assert("stop"@[0] != "load"@[0]);
    assert("start"@.len() == 5 && "enable"@.len() == 6 && "disable"@.len() == 7);
}

/// On such a host, a systemd service's `delete` disables the unit and
/// removes its unit file and drop-in directory, whatever the host held
/// before; it succeeds exactly when the unit file was there, and otherwise
/// reports `NotFound`.
pub proof fn lemma_linux_delete(name: Seq<char>, mp: nat, iv: u32, h: HostModel)
    ensures
        ({
            let (h2, s) = perform_all(linux_delete_steps(name), mp, iv, h);
            &&& !h2.files.contains(unit_path(name))
            &&& !h2.dirs.contains(dropin_dir(name))
            &&& !h2.active.contains(name)
            &&& h.files.contains(unit_path(name)) ==> s.verdict == Some(Ok::<(), (ErrorKind, Seq<char>)>(()))
            &&& !h.files.contains(unit_path(name)) ==> is_not_found(s.verdict)
        }),
{
    lemma_helper_words();
    let steps = linux_delete_steps(name);
    assert(steps.len() == 6);
    let s0 = run_start(6);
    let s1 = stepped(s0, 6);
    let s2 = stepped(s1, 6);
    let s3 = stepped(s2, 6);
    let ha = HostModel { active: h.active.remove(name), ..h };
    let d = dropin_dir(name);
    let hb = if ha.dirs.contains(d) { HostModel { dirs: ha.dirs.remove(d), ..ha } } else { ha };
    assert(host_perform(h, steps[0].action) == (h, Outcome::Done));
    assert(simulate(steps, mp, iv, h, s0, 6) == simulate(steps, mp, iv, h, s1, 5));
    assert(host_perform(h, steps[1].action).0 == ha);
    assert(simulate(steps, mp, iv, h, s1, 5) == simulate(steps, mp, iv, ha, s2, 4));
    assert(simulate(steps, mp, iv, ha, s2, 4) == simulate(steps, mp, iv, hb, s3, 3));
    let p = unit_path(name);
    if h.files.contains(p) {
        let hc = HostModel { files: hb.files.remove(p), ..hb };
        let s4 = stepped(s3, 6);
        let s5 = stepped(s4, 6);
        let s6 = stepped(s5, 6);
        assert(simulate(steps, mp, iv, hb, s3, 3) == simulate(steps, mp, iv, hc, s4, 2));
        assert(simulate(steps, mp, iv, hc, s4, 2) == simulate(steps, mp, iv, hc, s5, 1));
        assert(simulate(steps, mp, iv, hc, s5, 1) == simulate(steps, mp, iv, hc, s6, 0));
    } else {
        let o = failed(Failure::Missing);
        let t = after_outcome(steps, mp, s3, o);
        assert(simulate(steps, mp, iv, hb, s3, 3) == simulate(steps, mp, iv, hb, t, 2));
        assert(t.verdict is Some);
        assert(simulate(steps, mp, iv, hb, t, 2) == (hb, t));
    }
}

/// On such a host, a launchd daemon's `delete` unloads and removes its
/// property list whatever the host held before; it succeeds exactly when
/// the list was there, and otherwise reports `NotFound`.
pub proof fn lemma_macos_delete(name: Seq<char>, mp: nat, iv: u32, h: HostModel)
    ensures
        ({
            let (h2, s) = perform_all(macos_delete_steps(name), mp, iv, h);
            &&& !h2.files.contains(plist_path(name))
            &&& !h2.active.contains(plist_path(name))
            &&& h.files.contains(plist_path(name)) ==> s.verdict == Some(Ok::<(), (ErrorKind, Seq<char>)>(()))
            &&& !h.files.contains(plist_path(name)) ==> is_not_found(s.verdict)
        }),
{
    lemma_helper_words();
    let steps = macos_delete_steps(name);
    assert(steps.len() == 3);
    let p = plist_path(name);
    let s0 = run_start(3);
    let s1 = stepped(s0, 3);
    let s2 = stepped(s1, 3);
    let ha = HostModel { active: h.active.remove(p), ..h };
    assert(host_perform(h, steps[0].action) == (h, Outcome::Done));
    assert(simulate(steps, mp, iv, h, s0, 3) == simulate(steps, mp, iv, h, s1, 2));
    assert(host_perform(h, steps[1].action).0 == ha);
    assert(simulate(steps, mp, iv, h, s1, 2) == simulate(steps, mp, iv, ha, s2, 1));
    if h.files.contains(p) {
        let hb = HostModel { files: ha.files.remove(p), ..ha };
        let s3 = stepped(s2, 3);
        assert(simulate(steps, mp, iv, ha, s2, 1) == simulate(steps, mp, iv, hb, s3, 0));
    } else {
        let o = failed(Failure::Missing);
        assert(simulate(steps, mp, iv, ha, s2, 1) == simulate(steps, mp, iv, ha, after_outcome(steps, mp, s2, o), 0));
    }
}

/// On such a host, a Windows service's `delete` removes its registration
/// whatever the host held before; it succeeds exactly when the service was
/// registered, and otherwise reports `NotFound`.
pub proof fn lemma_windows_delete(name: Seq<char>, mp: nat, iv: u32, h: HostModel)
    ensures
        ({
            let (h2, s) = perform_all(windows_delete_steps(name), mp, iv, h);
            &&& !h2.services.contains_key(name)
            &&& h.services.contains_key(name) ==> s.verdict == Some(Ok::<(), (ErrorKind, Seq<char>)>(()))
            &&& !h.services.contains_key(name) ==> is_not_found(s.verdict)
        }),
{
    let steps = windows_delete_steps(name);
    assert(steps.len() == 3);
    let s0 = run_start(3);
    let s1 = stepped(s0, 3);
    let s2 = stepped(s1, 3);
    if h.services.contains_key(name) {
        let h1 = HostModel { services: h.services.insert(name, 1), ..h };
        assert(simulate(steps, mp, iv, h, s0, 3) == simulate(steps, mp, iv, h1, s1, 2));
        assert(host_perform(h1, steps[1].action).1 == Outcome::Status { state: 1 });
        assert(simulate(steps, mp, iv, h1, s1, 2) == simulate(steps, mp, iv, h1, s2, 1));
        let h3 = HostModel { services: h1.services.remove(name), ..h1 };
        let s3 = stepped(s2, 3);
        assert(simulate(steps, mp, iv, h1, s2, 1) == simulate(steps, mp, iv, h3, s3, 0));
    } else {
        let o = service_missing();
        assert(simulate(steps, mp, iv, h, s0, 3) == simulate(steps, mp, iv, h, s1, 2));
        assert(simulate(steps, mp, iv, h, s1, 2) == simulate(steps, mp, iv, h, s2, 1));
        assert(simulate(steps, mp, iv, h, s2, 1) == simulate(steps, mp, iv, h, after_outcome(steps, mp, s2, o), 0));
    }
}

/// After a run whose first step writes file `p` and whose steps never
/// remove a file, `p` exists.
pub proof fn lemma_writes_file(steps: Seq<StepView>, mp: nat, iv: u32, h: HostModel, p: Seq<char>)
    requires
        steps.len() > 0,
        steps[0].action matches ActionView::WriteFile { path, .. } && path == p,
        forall|i: int| 0 <= i < steps.len() ==> !(#[trigger] steps[i].action is RemoveFile),
    ensures
        perform_all(steps, mp, iv, h).0.files.contains(p),
{
    let n = steps.len();
    let s0 = run_start(n);
    let (h1, o) = host_perform(h, steps[0].action);
    let s1 = after_outcome(steps, mp, s0, o);
    assert(simulate(steps, mp, iv, h, s0, n) == simulate(steps, mp, iv, h1, s1, (n - 1) as nat));
    lemma_keeps_file(steps, mp, iv, h1, s1, (n - 1) as nat, p);
}

/// On such a host, after `create`, `start` and `stop` of a systemd service,
/// `delete` succeeds and leaves the unit disabled, without its unit file or
/// drop-in directory; a second `delete` leaves it so and reports `NotFound`.
pub proof fn lemma_linux_lifecycle(c: LinuxController, exe: Seq<char>, h: HostModel)
    ensures
        ({
            let (mp, iv) = (c.poll_limit(), c.poll_interval());
            let h1 = perform_all(c.create_steps(exe), mp, iv, h).0;
            let h2 = perform_all(c.start_steps(), mp, iv, h1).0;
            let h3 = perform_all(c.stop_steps(), mp, iv, h2).0;
            let (h4, first) = perform_all(c.delete_steps(), mp, iv, h3);
            let (h5, again) = perform_all(c.delete_steps(), mp, iv, h4);
            let n = c.service_name@;
            &&& first.verdict == Some(Ok::<(), (ErrorKind, Seq<char>)>(()))
            &&& !h4.files.contains(unit_path(n)) && !h4.dirs.contains(dropin_dir(n)) && !h4.active.contains(n)
            &&& !h5.files.contains(unit_path(n)) && !h5.dirs.contains(dropin_dir(n)) && !h5.active.contains(n)
            &&& is_not_found(again.verdict)
        }),
{
    let (mp, iv) = (c.poll_limit(), c.poll_interval());
    let p = unit_path(c.service_name@);
    let create = c.create_steps(exe);
    assert forall|i: int| 0 <= i < create.len() implies !(#[trigger] create[i].action is RemoveFile) by {
        if c.config is Some {
            assert(i < 5);
        } else {
            assert(i < 3);
        }
    }
    lemma_writes_file(create, mp, iv, h, p);
    let h1 = perform_all(create, mp, iv, h).0;
    let start = c.start_steps();
    assert forall|i: int| 0 <= i < start.len() implies !(#[trigger] start[i].action is RemoveFile) by {}
    lemma_keeps_file(start, mp, iv, h1, run_start(1), 1, p);
    let h2 = perform_all(start, mp, iv, h1).0;
    let stop = c.stop_steps();
    assert forall|i: int| 0 <= i < stop.len() implies !(#[trigger] stop[i].action is RemoveFile) by {}
    lemma_keeps_file(stop, mp, iv, h2, run_start(1), 1, p);
    let h3 = perform_all(stop, mp, iv, h2).0;
    lemma_linux_delete(c.service_name@, mp, iv, h3);
    let h4 = perform_all(c.delete_steps(), mp, iv, h3).0;
    lemma_linux_delete(c.service_name@, mp, iv, h4);
}

/// On such a host, after `create`, `start` and `stop` of a launchd daemon,
/// `delete` succeeds and leaves its property list unloaded and removed; a
/// second `delete` leaves it so and reports `NotFound`.
pub proof fn lemma_macos_lifecycle(c: MacosController, exe: Seq<char>, h: HostModel)
    ensures
        ({
            let (mp, iv) = (c.poll_limit(), c.poll_interval());
            let h1 = perform_all(c.create_steps(exe), mp, iv, h).0;
            let h2 = perform_all(c.start_steps(), mp, iv, h1).0;
            let h3 = perform_all(c.stop_steps(), mp, iv, h2).0;
            let (h4, first) = perform_all(c.delete_steps(), mp, iv, h3);
            let (h5, again) = perform_all(c.delete_steps(), mp, iv, h4);
            let p = plist_path(c.service_name@);
            &&& first.verdict == Some(Ok::<(), (ErrorKind, Seq<char>)>(()))
            &&& !h4.files.contains(p) && !h4.active.contains(p)
            &&& !h5.files.contains(p) && !h5.active.contains(p)
            &&& is_not_found(again.verdict)
        }),
{
    let (mp, iv) = (c.poll_limit(), c.poll_interval());
    let p = plist_path(c.service_name@);
    let create = c.create_steps(exe);
    assert forall|i: int| 0 <= i < create.len() implies !(#[trigger] create[i].action is RemoveFile) by {}
    lemma_writes_file(create, mp, iv, h, p);
    let h1 = perform_all(create, mp, iv, h).0;
    let start = c.start_steps();
    assert forall|i: int| 0 <= i < start.len() implies !(#[trigger] start[i].action is RemoveFile) by {}
    lemma_keeps_file(start, mp, iv, h1, run_start(1), 1, p);
    let h2 = perform_all(start, mp, iv, h1).0;
    let stop = c.stop_steps();
    assert forall|i: int| 0 <= i < stop.len() implies !(#[trigger] stop[i].action is RemoveFile) by {}
    lemma_keeps_file(stop, mp, iv, h2, run_start(1), 1, p);
    let h3 = perform_all(stop, mp, iv, h2).0;
    lemma_macos_delete(c.service_name@, mp, iv, h3);
    let h4 = perform_all(c.delete_steps(), mp, iv, h3).0;
    lemma_macos_delete(c.service_name@, mp, iv, h4);
}

/// On such a host, after `create`, `start` and `stop` of a Windows service,
/// `delete` succeeds and leaves it unregistered; a second `delete` leaves
/// it so and reports `NotFound`.
pub proof fn lemma_windows_lifecycle(c: WindowsController, exe: Seq<char>, h: HostModel)
    ensures
        ({
            let (mp, iv) = (c.poll_limit(), c.poll_interval());
            let h1 = perform_all(c.create_steps(exe), mp, iv, h).0;
            let h2 = perform_all(c.start_steps(), mp, iv, h1).0;
            let h3 = perform_all(c.stop_steps(), mp, iv, h2).0;
            let (h4, first) = perform_all(c.delete_steps(), mp, iv, h3);
            let (h5, again) = perform_all(c.delete_steps(), mp, iv, h4);
            &&& first.verdict == Some(Ok::<(), (ErrorKind, Seq<char>)>(()))
            &&& !h4.services.contains_key(c.service_name@)
            &&& !h5.services.contains_key(c.service_name@)
            &&& is_not_found(again.verdict)
        }),
{
    let (mp, iv) = (c.poll_limit(), c.poll_interval());
    let name = c.service_name@;
    let create = c.create_steps(exe);
    let s0 = run_start(1);
    let (hc, o) = host_perform(h, create[0].action);
    assert(simulate(create, mp, iv, h, s0, 1) == simulate(create, mp, iv, hc, after_outcome(create, mp, s0, o), 0));
    let h1 = perform_all(create, mp, iv, h).0;
    assert(h1.services.contains_key(name));
    let start = c.start_steps();
    assert forall|i: int| 0 <= i < start.len() implies !(#[trigger] start[i].action is DeleteService) by {}
    lemma_keeps_service(start, mp, iv, h1, run_start(2), 2, name);
    let h2 = perform_all(start, mp, iv, h1).0;
    let stop = c.stop_steps();
    assert forall|i: int| 0 <= i < stop.len() implies !(#[trigger] stop[i].action is DeleteService) by {}
    lemma_keeps_service(stop, mp, iv, h2, run_start(2), 2, name);
    let h3 = perform_all(stop, mp, iv, h2).0;
    lemma_windows_delete(name, mp, iv, h3);
    let h4 = perform_all(c.delete_steps(), mp, iv, h3).0;
    lemma_windows_delete(name, mp, iv, h4);
}

} // verus!
