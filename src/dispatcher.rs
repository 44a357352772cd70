use vstd::prelude::*;
use crate::status::{status_record, stopped_record, ServiceState, ServiceStatus, STOP_WAIT_HINT};

verus! {

/// The order in which a service's states are reported: stopped, start
/// pending, running, stop pending, stopped.
pub open spec fn lifecycle() -> Seq<ServiceState> {
    seq![
        ServiceState::Stopped,
        ServiceState::StartPending,
        ServiceState::Running,
        ServiceState::StopPending,
        ServiceState::Stopped,
    ]
}

/// `idx` places each element of `obs` at a position of the lifecycle, in
/// strictly increasing order.
pub open spec fn embeds(obs: Seq<ServiceState>, idx: Seq<int>) -> bool {
    &&& idx.len() == obs.len()
    &&& forall|k: int|
        0 <= k < idx.len() ==> 0 <= #[trigger] idx[k] < 5 && lifecycle()[idx[k]] == obs[k]
    &&& forall|a: int, b: int| 0 <= a < b < idx.len() ==> #[trigger] idx[a] < #[trigger] idx[b]
}

/// `obs` is a subsequence of the lifecycle.
pub open spec fn follows_lifecycle(obs: Seq<ServiceState>) -> bool {
    exists|idx: Seq<int>| embeds(obs, idx)
}

/// The first position after `stage` at which the lifecycle holds `state`.
pub open spec fn next_stage(stage: nat, state: ServiceState) -> Option<nat> {
    match state {
        ServiceState::StartPending => if stage < 1 { Some(1) } else { None },
        ServiceState::Running => if stage < 2 { Some(2) } else { None },
        ServiceState::StopPending => if stage < 3 { Some(3) } else { None },
        ServiceState::Stopped => if stage < 4 { Some(4) } else { None },
        _ => None,
    }
}

/// What a status reporter has done: the position in the lifecycle of the
/// last state it reported, and every state reported so far, starting with
/// the initial `Stopped`.
pub ghost struct ReporterModel {
    pub stage: nat,
    pub reported: Seq<ServiceState>,
}

/// The status side of the dispatcher: it decides which status records are
/// pushed to the service manager, so that the states the manager observes
/// always follow the lifecycle order.
pub struct StatusReporter {
    stage: usize,
    reported: Ghost<Seq<ServiceState>>,
    indices: Ghost<Seq<int>>,
}

impl View for StatusReporter {
    type V = ReporterModel;

    closed spec fn view(&self) -> ReporterModel {
        ReporterModel { stage: self.stage as nat, reported: self.reported@ }
    }
}

impl StatusReporter {
    /// The reporter's well-formedness: its reported states are placed in the
    /// lifecycle, the last one at its current stage.
    pub closed spec fn wf(&self) -> bool {
        &&& self.stage <= 4
        &&& embeds(self.reported@, self.indices@)
        &&& self.indices@.len() > 0
        &&& self.indices@.last() == self.stage as int
    }

    /// A reporter for a service that has not started: only the initial
    /// `Stopped` has been observed.
    pub fn new() -> (r: StatusReporter)
        ensures
            r.wf(),
            r@.stage == 0,
            r@.reported == seq![ServiceState::Stopped],
    {
        let reported: Ghost<Seq<ServiceState>> = Ghost(Seq::empty().push(ServiceState::Stopped));
        let indices: Ghost<Seq<int>> = Ghost(Seq::empty().push(0int));
        StatusReporter { stage: 0, reported, indices }
    }

    /// The state that was reported last.
    pub fn state(&self) -> (r: ServiceState)
        requires
            self.wf(),
        ensures
            r == self@.reported.last(),
    {
        if self.stage == 0 {
            ServiceState::Stopped
        } else if self.stage == 1 {
            ServiceState::StartPending
        } else if self.stage == 2 {
            ServiceState::Running
        } else if self.stage == 3 {
            ServiceState::StopPending
        } else {
            ServiceState::Stopped
        }
    }

    /// Moves to `state` if it comes later in the lifecycle than the state
    /// reported last, and returns the record to push; otherwise changes
    /// nothing and returns `None`.
    pub fn report(&mut self, state: ServiceState, wait_hint: u32) -> (r: Option<ServiceStatus>)
        requires
            old(self).wf(),
        ensures
            final(self).wf(),
            next_stage(old(self)@.stage, state) matches Some(j) ==> {
                &&& r == Some(status_record(state, wait_hint))
                &&& final(self)@.stage == j
                &&& final(self)@.reported == old(self)@.reported.push(state)
            },
            next_stage(old(self)@.stage, state) is None ==> {
                &&& r is None
                &&& final(self)@ == old(self)@
            },
    {
        let next: Option<usize> = match state {
            ServiceState::StartPending => if self.stage < 1 { Some(1) } else { None },
            ServiceState::Running => if self.stage < 2 { Some(2) } else { None },
            ServiceState::StopPending => if self.stage < 3 { Some(3) } else { None },
            ServiceState::Stopped => if self.stage < 4 { Some(4) } else { None },
            _ => None,
        };
        match next {
            Some(j) => {
                let ghost old_idx = self.indices@;
                let ghost new_idx = old_idx.push(j as int);
                let ghost new_rep = self.reported@.push(state);
                assert(embeds(new_rep, new_idx)) by {
                    assert forall|a: int, b: int| 0 <= a < b < new_idx.len() implies
                        #[trigger] new_idx[a] < #[trigger] new_idx[b] by {
                        if b == new_idx.len() - 1 && a < old_idx.len() - 1 {
                            assert(old_idx[a] < old_idx[old_idx.len() - 1]);
                        }
                    }
                    assert(lifecycle()[j as int] == state);
                }
                self.stage = j;
                self.reported = Ghost(new_rep);
                self.indices = Ghost(new_idx);
                Some(ServiceStatus::new(state, wait_hint))
            },
            None => None,
        }
    }

    /// The start of the service, once its control handler is registered:
    /// the records for start pending and running, in that order. A stop that came before leaves
    /// nothing to report.
    pub fn begin(&mut self) -> (r: Vec<ServiceStatus>)
        requires
            old(self).wf(),
        ensures
            final(self).wf(),
            old(self)@.stage == 0 ==> {
                &&& r@ == seq![
                    status_record(ServiceState::StartPending, 0),
                    status_record(ServiceState::Running, 0),
                ]
                &&& final(self)@.stage == 2
                &&& final(self)@.reported == old(self)@.reported.push(
                    ServiceState::StartPending,
                ).push(ServiceState::Running)
            },
            old(self)@.stage == 1 ==> {
                &&& r@ == seq![status_record(ServiceState::Running, 0)]
                &&& final(self)@.stage == 2
                &&& final(self)@.reported == old(self)@.reported.push(ServiceState::Running)
            },
            old(self)@.stage >= 2 ==> r@.len() == 0 && final(self)@ == old(self)@,
    {
        let mut out: Vec<ServiceStatus> = Vec::new();
        let a = self.report(ServiceState::StartPending, 0);
        if let Some(s) = a {
            out.push(s);
        }
        let b = self.report(ServiceState::Running, 0);
        if let Some(s) = b {
            out.push(s);
        }
        proof {
            if old(self)@.stage == 0 {
                assert(out@ =~= seq![
                    status_record(ServiceState::StartPending, 0),
                    status_record(ServiceState::Running, 0),
                ]);
            } else if old(self)@.stage == 1 {
                assert(out@ =~= seq![status_record(ServiceState::Running, 0)]);
            }
        }
        out
    }

    /// The pre-announcement of a stop, made by the control handler as soon as
    /// a stop arrives: the stop-pending record, unless the service is already
    /// stopping or stopped.
    pub fn announce_stop(&mut self) -> (r: Option<ServiceStatus>)
        requires
            old(self).wf(),
        ensures
            final(self).wf(),
            old(self)@.stage < 3 ==> {
                &&& r == Some(status_record(ServiceState::StopPending, STOP_WAIT_HINT))
                &&& final(self)@.stage == 3
                &&& final(self)@.reported == old(self)@.reported.push(ServiceState::StopPending)
            },
            old(self)@.stage >= 3 ==> r is None && final(self)@ == old(self)@,
    {
        self.report(ServiceState::StopPending, STOP_WAIT_HINT)
    }

    /// The end of the service, once its main function has returned
    /// `exit_code`: the stop-pending record unless it was already reported,
    /// then the final stopped record that carries the exit code. Once
    /// stopped, nothing more is reported.
    pub fn finish(&mut self, exit_code: u32) -> (r: Vec<ServiceStatus>)
        requires
            old(self).wf(),
        ensures
            final(self).wf(),
            final(self)@.stage == 4,
            old(self)@.stage == 4 ==> r@.len() == 0 && final(self)@ == old(self)@,
            old(self)@.stage < 3 ==> {
                &&& r@ == seq![
                    status_record(ServiceState::StopPending, 0),
                    stopped_record(exit_code),
                ]
                &&& final(self)@.reported == old(self)@.reported.push(
                    ServiceState::StopPending,
                ).push(ServiceState::Stopped)
            },
            old(self)@.stage == 3 ==> {
                &&& r@ == seq![stopped_record(exit_code)]
                &&& final(self)@.reported == old(self)@.reported.push(ServiceState::Stopped)
            },
    {
        let mut out: Vec<ServiceStatus> = Vec::new();
        let a = self.report(ServiceState::StopPending, 0);
        if let Some(s) = a {
            out.push(s);
        }
        let b = self.report(ServiceState::Stopped, 0);
        if let Some(_) = b {
            out.push(ServiceStatus::stopped(exit_code));
        }
        proof {
            if old(self)@.stage < 3 {
                assert(out@ =~= seq![
                    status_record(ServiceState::StopPending, 0),
                    stopped_record(exit_code),
                ]);
            } else if old(self)@.stage == 3 {
                assert(out@ =~= seq![stopped_record(exit_code)]);
            }
        }
        out
    }
}

/// Whatever a reporter has been asked, the states it has reported form a
/// subsequence of stopped, start pending, running, stop pending, stopped.
pub proof fn lemma_reported_states_follow_lifecycle(r: &StatusReporter)
    requires
        r.wf(),
    ensures
        follows_lifecycle(r@.reported),
{
    assert(embeds(r.reported@, r.indices@));
}

} // verus!
