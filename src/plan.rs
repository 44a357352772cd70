use vstd::prelude::*;
use crate::error::{Error, ErrorKind};
use crate::status::{state_code, ServiceState};
use crate::text::{decimal, push_decimal};

verus! {

/// One thing that the host does for a service operation. The library
/// decides which actions are done and in what order; the host performs
/// them and reports each [`Outcome`].
///
/// The service-manager actions acquire the manager and service handles they
/// need and release them before reporting, on every path.
pub enum Action {
    /// Write `content` to the file at `path`.
    WriteFile { path: String, content: String },
    /// Create the directory at `path`.
    CreateDir { path: String },
    /// Remove the file at `path`.
    RemoveFile { path: String },
    /// Remove the directory at `path` and everything in it.
    RemoveDirAll { path: String },
    /// Run the helper command `program` with the argument `verb`, followed by
    /// `target` if there is one.
    Run { program: String, verb: String, target: Option<String> },
    /// Register a service with the service manager.
    CreateService {
        name: String,
        display_name: String,
        binary_path: String,
        description: String,
        desired_access: u32,
        service_type: u32,
        start_type: u32,
        error_control: u32,
    },
    /// Ask the service manager to start a service.
    StartService { name: String },
    /// Send a stop control to a service.
    StopService { name: String },
    /// Ask the service manager for a service's current state.
    QueryStatus { name: String },
    /// Remove a service's registration from the service manager.
    DeleteService { name: String },
    /// Wait for `millis` milliseconds.
    Sleep { millis: u32 },
}

/// An [`Action`] over plain sequences.
pub ghost enum ActionView {
    WriteFile { path: Seq<char>, content: Seq<char> },
    CreateDir { path: Seq<char> },
    RemoveFile { path: Seq<char> },
    RemoveDirAll { path: Seq<char> },
    Run { program: Seq<char>, verb: Seq<char>, target: Option<Seq<char>> },
    CreateService {
        name: Seq<char>,
        display_name: Seq<char>,
        binary_path: Seq<char>,
        description: Seq<char>,
        desired_access: u32,
        service_type: u32,
        start_type: u32,
        error_control: u32,
    },
    StartService { name: Seq<char> },
    StopService { name: Seq<char> },
    QueryStatus { name: Seq<char> },
    DeleteService { name: Seq<char> },
    Sleep { millis: u32 },
}

impl View for Action {
    type V = ActionView;

    open spec fn view(&self) -> ActionView {
        match self {
            Action::WriteFile { path, content } => ActionView::WriteFile {
                path: path@,
                content: content@,
            },
            Action::CreateDir { path } => ActionView::CreateDir { path: path@ },
            Action::RemoveFile { path } => ActionView::RemoveFile { path: path@ },
            Action::RemoveDirAll { path } => ActionView::RemoveDirAll { path: path@ },
            Action::Run { program, verb, target } => ActionView::Run {
                program: program@,
                verb: verb@,
                target: match target {
                    Some(t) => Some(t@),
                    None => None,
                },
            },
            Action::CreateService {
                name,
                display_name,
                binary_path,
                description,
                desired_access,
                service_type,
                start_type,
                error_control,
            } => ActionView::CreateService {
                name: name@,
                display_name: display_name@,
                binary_path: binary_path@,
                description: description@,
                desired_access: *desired_access,
                service_type: *service_type,
                start_type: *start_type,
                error_control: *error_control,
            },
            Action::StartService { name } => ActionView::StartService { name: name@ },
            Action::StopService { name } => ActionView::StopService { name: name@ },
            Action::QueryStatus { name } => ActionView::QueryStatus { name: name@ },
            Action::DeleteService { name } => ActionView::DeleteService { name: name@ },
            Action::Sleep { millis } => ActionView::Sleep { millis: *millis },
        }
    }
}

/// Why an action failed, as the host observed it.
#[derive(Clone, Copy, Debug, PartialEq, Eq, Structural)]
pub enum Failure {
    /// The service manager or its registry could not be opened.
    Unavailable,
    /// The service or file is not there.
    Missing,
    /// The service is registered already.
    Exists,
    /// The helper command could not be started.
    Spawn,
    /// Any other failure of the system call or file operation.
    Io,
}

/// A handle that a service-manager action opens before it acts.
#[derive(Clone, Copy, Debug, PartialEq, Eq, Structural)]
pub enum Handle {
    /// The service control manager.
    Manager,
    /// The service itself.
    Service,
}

/// The name under which a failure to open `h` is reported.
pub open spec fn handle_name(h: Handle) -> Seq<char> {
    match h {
        Handle::Manager => "OpenSCManager"@,
        Handle::Service => "OpenServiceW"@,
    }
}

/// The name under which a failure to open `h` is reported.
pub fn handle_label(h: Handle) -> (r: &'static str)
    ensures
        r@ == handle_name(h),
{
    match h {
        Handle::Manager => "OpenSCManager",
        Handle::Service => "OpenServiceW",
    }
}

/// What came of an action.
pub enum Outcome {
    /// The action succeeded.
    Done,
    /// A status query answered with the state numbered `state`.
    Status { state: u32 },
    /// The helper command ran and exited with the failure status `code`,
    /// having written `stderr` to its standard error.
    Exited { code: u32, stderr: String },
    /// The action could not open `handle`; `detail` is the system's text.
    OpenFailed { handle: Handle, reason: Failure, detail: String },
    /// The action failed; `detail` is the host's text.
    Failed { reason: Failure, detail: String },
}

/// The error kind that a failure is reported as.
pub open spec fn failure_kind(f: Failure) -> ErrorKind {
    match f {
        Failure::Unavailable => ErrorKind::ResourceUnavailable,
        Failure::Missing => ErrorKind::NotFound,
        Failure::Exists => ErrorKind::AlreadyExists,
        Failure::Spawn => ErrorKind::ExternalProcessFailure,
        Failure::Io => ErrorKind::IOFailure,
    }
}

/// The error kind that a failure is reported as.
pub fn kind_of_failure(f: Failure) -> (r: ErrorKind)
    ensures
        r == failure_kind(f),
{
    match f {
        Failure::Unavailable => ErrorKind::ResourceUnavailable,
        Failure::Missing => ErrorKind::NotFound,
        Failure::Exists => ErrorKind::AlreadyExists,
        Failure::Spawn => ErrorKind::ExternalProcessFailure,
        Failure::Io => ErrorKind::IOFailure,
    }
}

/// A status query that is repeated while the service is in state
/// `pending`; once it has left it, the service must be in `expect`, if
/// that is given.
#[derive(Clone, Copy, Debug, PartialEq, Eq, Structural)]
pub struct Wait {
    pub pending: ServiceState,
    pub expect: Option<ServiceState>,
}

/// One step of an operation: an action, whether its failure ends the
/// operation, the text that opens the error message if it does, and, for a
/// status query, the wait it belongs to.
pub struct Step {
    pub action: Action,
    pub must_succeed: bool,
    pub context: String,
    pub wait: Option<Wait>,
}

/// A [`Step`] over plain sequences.
pub ghost struct StepView {
    pub action: ActionView,
    pub must_succeed: bool,
    pub context: Seq<char>,
    pub wait: Option<Wait>,
}

impl View for Step {
    type V = StepView;

    open spec fn view(&self) -> StepView {
        StepView {
            action: self.action@,
            must_succeed: self.must_succeed,
            context: self.context@,
            wait: self.wait,
        }
    }
}

/// The views of a list of steps.
pub open spec fn steps_view(steps: Seq<Step>) -> Seq<StepView> {
    steps.map_values(|s: Step| s@)
}

/// A step whose failure ends the operation with an error that opens with
/// `context`.
pub fn required(action: Action, context: String) -> (r: Step)
    ensures
        r@ == (StepView { action: action@, must_succeed: true, context: context@, wait: None }),
{
    Step { action, must_succeed: true, context, wait: None }
}

/// A step whose failure is passed over.
pub fn best_effort(action: Action) -> (r: Step)
    ensures
        r@ == (StepView { action: action@, must_succeed: false, context: Seq::empty(), wait: None }),
{
    Step { action, must_succeed: false, context: String::new(), wait: None }
}

/// A wait on the state of service `name`, polled while it is `pending`.
pub fn wait_while(name: String, pending: ServiceState, expect: Option<ServiceState>, must_succeed: bool, context: String) -> (r: Step)
    ensures
        r@ == (StepView {
            action: ActionView::QueryStatus { name: name@ },
            must_succeed,
            context: context@,
            wait: Some(Wait { pending, expect }),
        }),
{
    Step { action: Action::QueryStatus { name }, must_succeed, context, wait: Some(Wait { pending, expect }) }
}

/// The view of an optional text.
pub open spec fn opt_view(o: Option<String>) -> Option<Seq<char>> {
    match o {
        Some(s) => Some(s@),
        None => None,
    }
}

/// The view of an optional text.
pub open spec fn opt_str_view(o: Option<&str>) -> Option<Seq<char>> {
    match o {
        Some(s) => Some(s@),
        None => None,
    }
}

/// A step that runs helper command `program` with `verb` and `target`; if
/// it must succeed, a failure to start the command is reported after
/// `context`.
pub open spec fn command_view(
    program: Seq<char>,
    verb: Seq<char>,
    target: Option<Seq<char>>,
    must_succeed: bool,
    context: Seq<char>,
) -> StepView {
    StepView {
        action: ActionView::Run { program, verb, target },
        must_succeed,
        context: if must_succeed { context } else { Seq::empty() },
        wait: None,
    }
}

/// A step that runs helper command `program` with `verb` and `target`.
pub fn command_step(
    program: &str,
    verb: &str,
    target: Option<&str>,
    must_succeed: bool,
    context: String,
) -> (r: Step)
    ensures
        r@ == command_view(program@, verb@, opt_str_view(target), must_succeed, context@),
{
    let t = match target {
        Some(s) => Some(String::from_str(s)),
        None => None,
    };
    let action = Action::Run { program: String::from_str(program), verb: String::from_str(verb), target: t };
    if must_succeed {
        required(action, context)
    } else {
        best_effort(action)
    }
}

/// Appends `s` to a list of steps.
pub fn push_step(v: &mut Vec<Step>, s: Step)
    ensures
        steps_view(final(v)@) == steps_view(old(v)@).push(s@),
{
    let ghost sv = s@;
    v.push(s);
    assert(steps_view(final(v)@) =~= steps_view(old(v)@).push(sv));
}

/// The pause between two status queries, in milliseconds, unless a
/// controller is given another.
pub const POLL_INTERVAL_MS: u32 = 250;

/// How many status queries may find a service pending before an operation
/// gives up, unless a controller is given another bound.
pub const MAX_POLLS: u32 = 240;

/// The outcome of an operation so far: nothing yet, success, or an error
/// of a kind with a message.
pub type Verdict = Option<Result<(), (ErrorKind, Seq<char>)>>;

/// Where a run of an operation stands: the step it is at, how many times
/// the current wait has found the service still pending, whether a pause
/// comes before the next query, and the verdict once there is one.
pub ghost struct RunState {
    pub pos: nat,
    pub polls: nat,
    pub sleeping: bool,
    pub verdict: Verdict,
}

/// The error message of a step whose action failed with `detail`: the
/// step's context followed by the detail, except for a rejected stop
/// request, which the context alone reports.
pub open spec fn failure_message(step: StepView, detail: Seq<char>) -> Seq<char> {
    match step.action {
        ActionView::StopService { .. } => step.context,
        _ => step.context + ": "@ + detail,
    }
}

/// The error message of a step whose helper command exited with the failure
/// status `code` and wrote `stderr`: it names the command's verb.
pub open spec fn exit_message(step: StepView, code: u32, stderr: Seq<char>) -> Seq<char> {
    let head = match step.action {
        ActionView::Run { verb, .. } => "Command \""@ + verb + "\" failed"@,
        _ => step.context,
    };
    head + " ("@ + decimal(code as nat) + "): "@ + stderr
}

/// The run after the current step succeeded: at the next step, or done
/// with success after the last.
pub open spec fn advance(n: nat, s: RunState) -> RunState {
    RunState {
        pos: s.pos + 1,
        polls: 0,
        sleeping: false,
        verdict: if s.pos + 1 >= n { Some(Ok(())) } else { None },
    }
}

/// The run after it failed with an error of kind `k` and message `m`.
pub open spec fn fail(s: RunState, k: ErrorKind, m: Seq<char>) -> RunState {
    RunState { verdict: Some(Err((k, m))), ..s }
}

/// The run after the current wait found the service in state `state`.
pub open spec fn after_status(
    n: nat,
    max_polls: nat,
    step: StepView,
    w: Wait,
    s: RunState,
    state: u32,
) -> RunState {
    if state == state_code(w.pending) {
        if s.polls < max_polls {
            RunState { polls: s.polls + 1, sleeping: true, ..s }
        } else if step.must_succeed {
            fail(s, ErrorKind::OperationTimeout, step.context + ": timed out"@)
        } else {
            advance(n, s)
        }
    } else if w.expect matches Some(x) && state != state_code(x) {
        if step.must_succeed {
            fail(s, ErrorKind::Other, step.context)
        } else {
            advance(n, s)
        }
    } else {
        advance(n, s)
    }
}

/// The run after the host reports `o` for the action it was given.
pub open spec fn after_outcome(
    steps: Seq<StepView>,
    max_polls: nat,
    s: RunState,
    o: Outcome,
) -> RunState {
    let n = steps.len();
    let step = steps[s.pos as int];
    if s.verdict is Some {
        s
    } else if s.sleeping {
        RunState { sleeping: false, ..s }
    } else {
        match o {
            Outcome::Done => if step.wait is Some && step.must_succeed {
                fail(s, ErrorKind::Other, step.context + ": no status was reported"@)
            } else {
                advance(n, s)
            },
            Outcome::Status { state } => match step.wait {
                Some(w) => after_status(n, max_polls, step, w, s, state),
                None => advance(n, s),
            },
            Outcome::Exited { code, stderr } => if step.must_succeed {
                fail(s, ErrorKind::ExternalProcessFailure, exit_message(step, code, stderr@))
            } else {
                advance(n, s)
            },
            Outcome::OpenFailed { handle, reason, detail } => if step.must_succeed {
                fail(s, failure_kind(reason), handle_name(handle) + ": "@ + detail@)
            } else {
                advance(n, s)
            },
            Outcome::Failed { reason, detail } => if step.must_succeed {
                fail(s, failure_kind(reason), failure_message(step, detail@))
            } else {
                advance(n, s)
            },
        }
    }
}

/// The action the host is asked to perform next, if the run is not over.
pub open spec fn next_action(steps: Seq<StepView>, interval: u32, s: RunState) -> Option<
    ActionView,
> {
    if s.verdict is Some {
        None
    } else if s.sleeping {
        Some(ActionView::Sleep { millis: interval })
    } else {
        Some(steps[s.pos as int].action)
    }
}

/// How far a run is from its end: each step is worth one action plus two
/// for each status query that may find the service pending (the query and
/// the pause after it).
pub open spec fn run_measure(n: nat, max_polls: nat, s: RunState) -> int {
    (n - s.pos) * (2 * max_polls + 1) - (2 * s.polls - if s.sleeping { 1int } else { 0 })
}

/// Every run ends: whatever the host reports, each outcome either gives the
/// run its verdict or brings it strictly closer to its end, so a run of `n`
/// steps takes at most `n * (2 * max_polls + 1)` actions.
pub proof fn lemma_run_progress(steps: Seq<StepView>, max_polls: nat, s: RunState, o: Outcome)
    requires
        s.verdict is None,
        s.pos < steps.len(),
        s.polls <= max_polls,
    ensures
        ({
            let t = after_outcome(steps, max_polls, s, o);
            t.verdict is Some || {
                &&& t.pos < steps.len()
                &&& t.polls <= max_polls
                &&& 0 <= run_measure(steps.len(), max_polls, t) < run_measure(steps.len(), max_polls, s)
            }
        }),
{
    let n = steps.len();
    let t = after_outcome(steps, max_polls, s, o);
    let k = 2 * max_polls + 1;
    if t.verdict is None {
        let a = n - s.pos;
        let b = n - t.pos;
        assert(a >= 1);
        if t.pos == s.pos + 1 {
            assert(b >= 1);
            assert(a == b + 1);
            assert(a * k == b * k + k) by (nonlinear_arith)
                requires
                    a == b + 1,
            ;
            assert(b * k >= k) by (nonlinear_arith)
                requires
                    b >= 1,
                    k >= 1,
            ;
        } else {
            assert(t.pos == s.pos);
            assert(a * k >= k) by (nonlinear_arith)
                requires
                    a >= 1,
                    k >= 1,
            ;
        }
    }
}

/// The state that a step must find the service in once its wait is over,
/// if it is a wait that must succeed and expects one.
pub open spec fn expected_state(step: StepView) -> Option<ServiceState> {
    if step.must_succeed {
        match step.wait {
            Some(w) => w.expect,
            None => None,
        }
    } else {
        None
    }
}

/// `o` is a status report of the state numbered `code`.
pub open spec fn reports_state(o: Outcome, code: u32) -> bool {
    match o {
        Outcome::Status { state } => state == code,
        _ => false,
    }
}

/// A run succeeds only at its last step; and where that step is a wait
/// that expects a state, only on a status report of that very state. So an
/// operation that ends by waiting for a state succeeds only once the
/// service manager has reported it, however long the polling took.
pub proof fn lemma_success_needs_expected_state(steps: Seq<StepView>, max_polls: nat, s: RunState, o: Outcome)
    requires
        s.verdict is None,
        s.pos < steps.len(),
    ensures
        after_outcome(steps, max_polls, s, o).verdict == Some(Ok::<(), (ErrorKind, Seq<char>)>(())) ==> {
            &&& s.pos == steps.len() - 1
            &&& !s.sleeping
            &&& (expected_state(steps.last()) matches Some(x) ==> reports_state(o, state_code(x)))
        },
{
}

/// A run of a service operation: a list of steps, performed one by one by
/// the host. Status queries that find the service pending are repeated after
/// a pause, at most `max_polls` times; then a wait that must succeed fails
/// the operation with `OperationTimeout`, and a best-effort wait moves on to
/// the next step.
pub struct Operation {
    steps: Vec<Step>,
    pos: usize,
    polls: u32,
    sleeping: bool,
    max_polls: u32,
    sleep: Action,
    verdict: Option<Result<(), Error>>,
}

/// The model of an error.
pub open spec fn error_view(e: Error) -> (ErrorKind, Seq<char>) {
    (e.kind, e.message@)
}

/// The model of a verdict.
pub open spec fn verdict_view(v: Option<Result<(), Error>>) -> Verdict {
    match v {
        None => None,
        Some(Ok(())) => Some(Ok(())),
        Some(Err(e)) => Some(Err(error_view(e))),
    }
}

/// `op` is a run of `steps` that has not begun, with the given pause and
/// polling bound.
pub open spec fn fresh_run(op: Operation, steps: Seq<StepView>, interval: u32, max_polls: nat) -> bool {
    &&& op.wf()
    &&& op.steps() == steps
    &&& op.interval() == interval
    &&& op.max_polls() == max_polls
    &&& op.state() == (RunState {
        pos: 0,
        polls: 0,
        sleeping: false,
        verdict: if steps.len() == 0 { Some(Ok(())) } else { None },
    })
}

impl Operation {
    /// The steps of the operation.
    pub closed spec fn steps(&self) -> Seq<StepView> {
        steps_view(self.steps@)
    }

    /// The pause between two status queries, in milliseconds.
    pub closed spec fn interval(&self) -> u32 {
        self.sleep->Sleep_millis
    }

    /// The most status queries that may find the service pending.
    pub closed spec fn max_polls(&self) -> nat {
        self.max_polls as nat
    }

    /// Where the run stands.
    pub closed spec fn state(&self) -> RunState {
        RunState {
            pos: self.pos as nat,
            polls: self.polls as nat,
            sleeping: self.sleeping,
            verdict: verdict_view(self.verdict),
        }
    }

    /// The run is consistent: it is at one of its steps until it has a
    /// verdict.
    pub closed spec fn wf(&self) -> bool {
        &&& self.sleep is Sleep
        &&& self.polls <= self.max_polls
        &&& (self.verdict is None ==> self.pos < self.steps@.len())
        &&& (self.sleeping ==> self.verdict is None)
    }

    /// A run of `steps` that waits `interval` milliseconds between status
    /// queries and gives up after `max_polls` of them find the service
    /// pending. A run without steps has succeeded at once.
    pub fn new(steps: Vec<Step>, interval: u32, max_polls: u32) -> (r: Operation)
        ensures
            r.wf(),
            r.steps() == steps_view(steps@),
            r.interval() == interval,
            r.max_polls() == max_polls,
            r.state() == (RunState {
                pos: 0,
                polls: 0,
                sleeping: false,
                verdict: if steps@.len() == 0 { Some(Ok(())) } else { None },
            }),
    {
        let done = steps.len() == 0;
        Operation {
            steps,
            pos: 0,
            polls: 0,
            sleeping: false,
            max_polls,
            sleep: Action::Sleep { millis: interval },
            verdict: if done { Some(Ok(())) } else { None },
        }
    }

    /// The action that the host performs next, or `None` once the operation
    /// is over.
    pub fn next(&self) -> (r: Option<&Action>)
        requires
            self.wf(),
        ensures
            match r {
                Some(a) => next_action(self.steps(), self.interval(), self.state()) == Some(a@),
                None => next_action(self.steps(), self.interval(), self.state()) is None,
            },
    {
        if self.verdict.is_some() {
            None
        } else if self.sleeping {
            Some(&self.sleep)
        } else {
            proof {
                assert(steps_view(self.steps@)[self.pos as int] == self.steps@[self.pos as int]@);
            }
            Some(&self.steps[self.pos].action)
        }
    }

    /// Whether the operation is over.
    pub fn is_done(&self) -> (r: bool)
        ensures
            r == (self.state().verdict is Some),
    {
        self.verdict.is_some()
    }

    fn advance(&mut self)
        requires
            old(self).wf(),
            old(self).verdict is None,
        ensures
            final(self).wf(),
            final(self).state() == advance(old(self).steps().len(), old(self).state()),
            final(self).steps() == old(self).steps(),
            final(self).interval() == old(self).interval(),
            final(self).max_polls() == old(self).max_polls(),
    {
        let n = self.steps.len();
        self.pos = self.pos + 1;
        self.polls = 0;
        self.sleeping = false;
        if self.pos >= n {
            self.verdict = Some(Ok(()));
        }
    }

    fn fail(&mut self, kind: ErrorKind, message: String)
        requires
            old(self).wf(),
            old(self).verdict is None,
            !old(self).sleeping,
        ensures
            final(self).wf(),
            final(self).state() == fail(old(self).state(), kind, message@),
            final(self).steps() == old(self).steps(),
            final(self).interval() == old(self).interval(),
            final(self).max_polls() == old(self).max_polls(),
    {
        self.verdict = Some(Err(Error::with_kind(kind, message)));
    }

    /// Records what came of the action that [`Operation::next`] gave.
    pub fn record(&mut self, outcome: Outcome)
        requires
            old(self).wf(),
        ensures
            final(self).wf(),
            final(self).steps() == old(self).steps(),
            final(self).interval() == old(self).interval(),
            final(self).max_polls() == old(self).max_polls(),
            final(self).state() == after_outcome(
                old(self).steps(),
                old(self).max_polls(),
                old(self).state(),
                outcome,
            ),
    {
        if self.verdict.is_some() {
            return;
        }
        if self.sleeping {
            self.sleeping = false;
            return;
        }
        proof {
            assert(steps_view(self.steps@)[self.pos as int] == self.steps@[self.pos as int]@);
        }
        let must = self.steps[self.pos].must_succeed;
        match outcome {
            Outcome::Done => {
                if self.steps[self.pos].wait.is_some() && must {
                    let mut m = self.steps[self.pos].context.clone();
                    m.append(": no status was reported");
                    self.fail(ErrorKind::Other, m);
                } else {
                    self.advance();
                }
            },
            Outcome::Status { state } => {
                match self.steps[self.pos].wait {
                    Some(w) => {
                        if state == w.pending.code() {
                            if self.polls < self.max_polls {
                                self.polls = self.polls + 1;
                                self.sleeping = true;
                            } else if must {
                                let mut m = self.steps[self.pos].context.clone();
                                m.append(": timed out");
                                self.fail(ErrorKind::OperationTimeout, m);
                            } else {
                                self.advance();
                            }
                        } else {
                            let mismatch = match w.expect {
                                Some(x) => state != x.code(),
                                None => false,
                            };
                            if mismatch && must {
                                let m = self.steps[self.pos].context.clone();
                                self.fail(ErrorKind::Other, m);
                            } else {
                                self.advance();
                            }
                        }
                    },
                    None => self.advance(),
                }
            },
            Outcome::Exited { code, stderr } => {
                if must {
                    let mut m = match &self.steps[self.pos].action {
                        Action::Run { verb, .. } => {
                            let mut t = String::from_str("Command \"");
                            t.append(verb.as_str());
                            t.append("\" failed");
                            t
                        },
                        _ => self.steps[self.pos].context.clone(),
                    };
                    m.append(" (");
                    push_decimal(&mut m, code);
                    m.append("): ");
                    m.append(stderr.as_str());
                    self.fail(ErrorKind::ExternalProcessFailure, m);
                } else {
                    self.advance();
                }
            },
            Outcome::OpenFailed { handle, reason, detail } => {
                if must {
                    let mut m = String::from_str(handle_label(handle));
                    m.append(": ");
                    m.append(detail.as_str());
                    self.fail(kind_of_failure(reason), m);
                } else {
                    self.advance();
                }
            },
            Outcome::Failed { reason, detail } => {
                if must {
                    let mut m = self.steps[self.pos].context.clone();
                    let stop = match &self.steps[self.pos].action {
                        Action::StopService { .. } => true,
                        _ => false,
                    };
                    if !stop {
                        m.append(": ");
                        m.append(detail.as_str());
                    }
                    self.fail(kind_of_failure(reason), m);
                } else {
                    self.advance();
                }
            },
        }
    }

    /// The result of a finished operation.
    pub fn finish(self) -> (r: Result<(), Error>)
        requires
            self.state().verdict is Some,
        ensures
            self.state().verdict == Some(
                match r {
                    Ok(()) => Ok(()),
                    Err(e) => Err(error_view(e)),
                },
            ),
    {
        match self.verdict {
            Some(v) => v,
            None => Ok(()),
        }
    }
}

} // verus!
