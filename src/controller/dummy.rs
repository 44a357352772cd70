use vstd::prelude::*;
use crate::controller::ControllerInterface;
use crate::error::Error;
use crate::plan::{Operation, Step, StepView, MAX_POLLS, POLL_INTERVAL_MS};

verus! {

/// A controller for platforms without a supported service manager: every
/// operation succeeds at once and changes nothing on the system. Only the
/// standalone run has an effect.
pub struct DummyController {}

impl DummyController {
    /// A controller; the service's names are not used.
    pub fn new(_service_name: &str, _display_name: &str, _description: &str) -> (r: DummyController) {
        DummyController {}
    }

    /// There is no service manager to hand the process to: the call fails.
    pub fn register(&mut self) -> (r: Result<(), Error>)
        ensures
            r is Err,
    {
        Err(Error::new("no service manager is supported on this platform"))
    }
}

impl ControllerInterface for DummyController {
    open spec fn create_steps(&self, exe: Seq<char>) -> Seq<StepView> {
        Seq::empty()
    }

    open spec fn delete_steps(&self) -> Seq<StepView> {
        Seq::empty()
    }

    open spec fn start_steps(&self) -> Seq<StepView> {
        Seq::empty()
    }

    open spec fn stop_steps(&self) -> Seq<StepView> {
        Seq::empty()
    }

    open spec fn poll_interval(&self) -> u32 {
        POLL_INTERVAL_MS
    }

    open spec fn poll_limit(&self) -> nat {
        MAX_POLLS as nat
    }

    fn create(&self, exe_path: &str) -> (r: Operation) {
        let steps: Vec<Step> = Vec::new();
        proof { assert(crate::plan::steps_view(steps@) =~= Seq::<StepView>::empty()); }
        Operation::new(steps, POLL_INTERVAL_MS, MAX_POLLS)
    }

    fn delete(&self) -> (r: Operation) {
        let steps: Vec<Step> = Vec::new();
        proof { assert(crate::plan::steps_view(steps@) =~= Seq::<StepView>::empty()); }
        Operation::new(steps, POLL_INTERVAL_MS, MAX_POLLS)
    }

    fn start(&self) -> (r: Operation) {
        let steps: Vec<Step> = Vec::new();
        proof { assert(crate::plan::steps_view(steps@) =~= Seq::<StepView>::empty()); }
        Operation::new(steps, POLL_INTERVAL_MS, MAX_POLLS)
    }

    fn stop(&self) -> (r: Operation) {
        let steps: Vec<Step> = Vec::new();
        proof { assert(crate::plan::steps_view(steps@) =~= Seq::<StepView>::empty()); }
        Operation::new(steps, POLL_INTERVAL_MS, MAX_POLLS)
    }
}

} // verus!
