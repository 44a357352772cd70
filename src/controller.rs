use vstd::prelude::*;
use crate::plan::{Operation, StepView, fresh_run};

pub mod dummy;
pub mod linux;
pub mod macos;
pub mod windows;

verus! {

/// A service manager's backend. Each operation is returned as an
/// [`Operation`] whose steps the host performs; the steps are those of the
/// backend's plan for the operation.
///
/// Every backend also has a `register` function that hands the process to
/// the service manager; its form differs by platform, so it is not part of
/// this interface.
pub trait ControllerInterface {
    /// The steps that register the service; `exe` is the resolved path of
    /// the running executable.
    spec fn create_steps(&self, exe: Seq<char>) -> Seq<StepView>;

    /// The steps that stop the service on a best-effort basis and remove its
    /// registration.
    spec fn delete_steps(&self) -> Seq<StepView>;

    /// The steps that start the service.
    spec fn start_steps(&self) -> Seq<StepView>;

    /// The steps that stop the service.
    spec fn stop_steps(&self) -> Seq<StepView>;

    /// The pause between two status queries, in milliseconds.
    spec fn poll_interval(&self) -> u32;

    /// How many status queries may find the service pending.
    spec fn poll_limit(&self) -> nat;

    /// Registers the service with the service manager.
    fn create(&self, exe_path: &str) -> (r: Operation)
        ensures
            fresh_run(r, self.create_steps(exe_path@), self.poll_interval(), self.poll_limit()),
    ;

    /// Stops the service if it runs, then removes its registration.
    fn delete(&self) -> (r: Operation)
        ensures
            fresh_run(r, self.delete_steps(), self.poll_interval(), self.poll_limit()),
    ;

    /// Starts the service.
    fn start(&self) -> (r: Operation)
        ensures
            fresh_run(r, self.start_steps(), self.poll_interval(), self.poll_limit()),
    ;

    /// Stops the service.
    fn stop(&self) -> (r: Operation)
        ensures
            fresh_run(r, self.stop_steps(), self.poll_interval(), self.poll_limit()),
    ;
}

} // verus!
