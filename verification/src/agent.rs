//! Node Agent runtime: local resource accounting, the workload execution
//! manager, and the bounded-retry startup protocol the agent's client
//! follows towards the Scheduler — connect, register, open the status
//! stream, each phase retried at a fixed delay a bounded number of times,
//! and fatal once the budget is exhausted.

use vstd::prelude::*;
use crate::model::{Instance, InstanceState, ResourceSummary, Resource};
use crate::messages::{InstanceStatus, NodeStatus, Signal, SignalInstruction, spec_state_code, state_code};
use crate::NodeIdentifier;

verus! {

/// Failures local to a node agent.
#[derive(Clone, Copy, Debug, PartialEq, Eq, Structural)]
pub enum WorkloadError {
    /// A signal named an instance this node does not run.
    InstanceNotFound,
    /// A create named an instance identifier this node already runs.
    DuplicateInstance,
}

/// How many attempts each startup phase may make in total before the
/// agent gives up: the initial attempt and ten retries.
pub const STARTUP_ATTEMPT_LIMIT: u32 = 11;

/// The fixed pause between two attempts of one startup phase, in seconds.
pub const RETRY_DELAY_SECS: u64 = 1;

/// A bounded fixed-delay retry discipline: at most `max_attempts`
/// attempts per startup phase, `delay_secs` apart, fatal on exhaustion.
#[derive(Clone, Copy, Debug, PartialEq, Eq, Structural)]
pub struct RetryPolicy {
    pub delay_secs: u64,
    pub max_attempts: u32,
}

impl RetryPolicy {
    /// The agent's startup discipline: one-second delay, eleven attempts.
    pub fn standard() -> (r: RetryPolicy)
        ensures
            r.delay_secs == RETRY_DELAY_SECS,
            r.max_attempts == STARTUP_ATTEMPT_LIMIT,
    {
        RetryPolicy { delay_secs: RETRY_DELAY_SECS, max_attempts: STARTUP_ATTEMPT_LIMIT }
    }
}

/// The strictly sequential startup states of the agent's client. Each
/// state before `Streaming` has one pending kind of attempt: opening the
/// transport, sending the registration, establishing the status stream.
#[derive(Clone, Copy, Debug, PartialEq, Eq, Structural)]
pub enum StartupPhase {
    /// Disconnected; attempting to open the transport connection.
    Connecting,
    /// Connected; attempting to register with the credential.
    Registering,
    /// Registered; attempting to establish the status stream.
    OpeningStream,
    /// Streaming: startup is complete, heartbeats flow each second.
    Streaming,
}

/// The phase a successful attempt leads to.
pub open spec fn spec_next_phase(p: StartupPhase) -> StartupPhase {
    match p {
        StartupPhase::Connecting => StartupPhase::Registering,
        StartupPhase::Registering => StartupPhase::OpeningStream,
        StartupPhase::OpeningStream => StartupPhase::Streaming,
        StartupPhase::Streaming => StartupPhase::Streaming,
    }
}

/// What the caller must do after the machine consumed one attempt's
/// outcome.
#[derive(Clone, Copy, Debug, PartialEq, Eq, Structural)]
pub enum StartupAction {
    /// Wait the fixed delay, then attempt the same phase again.
    RetryAfterDelay(u64),
    /// The phase succeeded: perform the next phase's attempt.
    NextAttempt,
    /// All phases succeeded: stream heartbeats from now on.
    Established,
    /// The retry budget of the current phase is exhausted: the agent must
    /// terminate rather than run unregistered.
    Fatal,
}

/// The agent client's startup state machine, one per agent process:
/// which phase it is in and how many attempts the phase has consumed.
pub struct StartupClient {
    pub phase: StartupPhase,
    pub attempts: u32,
}

impl StartupClient {
    /// A fresh agent: disconnected, nothing attempted yet.
    pub fn new() -> (r: StartupClient)
        ensures
            r.phase == StartupPhase::Connecting,
            r.attempts == 0,
    {
        StartupClient { phase: StartupPhase::Connecting, attempts: 0 }
    }

    /// Consumes the outcome of one attempt of the current phase. Success
    /// advances to the next phase with a fresh attempt budget; failure
    /// within the budget asks for the same attempt after the fixed delay;
    /// failure that exhausts the budget is fatal. The machine never asks
    /// for anything once it is streaming.
    pub fn on_attempt_outcome(&mut self, policy: &RetryPolicy, success: bool) -> (a: StartupAction)
        requires
            old(self).phase != StartupPhase::Streaming,
            old(self).attempts < policy.max_attempts,
        ensures
            success ==> {
                &&& final(self).phase == spec_next_phase(old(self).phase)
                &&& final(self).attempts == 0
                &&& a == (if old(self).phase == StartupPhase::OpeningStream {
                    StartupAction::Established
                } else {
                    StartupAction::NextAttempt
                })
            },
            !success ==> {
                &&& final(self).phase == old(self).phase
                &&& final(self).attempts == old(self).attempts + 1
                &&& a == (if old(self).attempts + 1 < policy.max_attempts {
                    StartupAction::RetryAfterDelay(policy.delay_secs)
                } else {
                    StartupAction::Fatal
                })
            },
    {
        if success {
            let next = match self.phase {
                StartupPhase::Connecting => StartupPhase::Registering,
                StartupPhase::Registering => StartupPhase::OpeningStream,
                StartupPhase::OpeningStream => StartupPhase::Streaming,
                StartupPhase::Streaming => StartupPhase::Streaming,
            };
            let done = match self.phase {
                StartupPhase::OpeningStream => true,
                _ => false,
            };
            self.phase = next;
            self.attempts = 0;
            if done {
                StartupAction::Established
            } else {
                StartupAction::NextAttempt
            }
        } else {
            self.attempts = self.attempts + 1;
            if self.attempts < policy.max_attempts {
                StartupAction::RetryAfterDelay(policy.delay_secs)
            } else {
                StartupAction::Fatal
            }
        }
    }
}

/// Whether a startup phase, given the outcomes its attempts would see in
/// order, advances before the attempt budget runs out. This is the
/// behaviour [`StartupClient::on_attempt_outcome`] steps through: each
/// `false` consumes one attempt, the first `true` advances the phase.
pub open spec fn spec_phase_advances(outcomes: Seq<bool>, budget: int) -> bool
    decreases outcomes.len(),
{
    if outcomes.len() == 0 || budget <= 0 {
        false
    } else if outcomes[0] {
        true
    } else {
        spec_phase_advances(outcomes.skip(1), budget - 1)
    }
}

/// Bounded-retry law: a startup phase with attempt budget `budget`
/// advances exactly when one of its first `budget` attempts succeeds —
/// an address that refuses a prefix of attempts and then accepts within
/// the budget lets the agent through; one that refuses the whole budget
/// ends fatally, and no later acceptance is ever consulted.
pub proof fn lemma_phase_advances_iff_success_within_budget(outcomes: Seq<bool>, budget: int)
    requires
        budget <= outcomes.len(),
    ensures
        spec_phase_advances(outcomes, budget) <==> exists|k: int|
            0 <= k < budget && outcomes[k],
    decreases outcomes.len(),
{
    if outcomes.len() == 0 || budget <= 0 {
    } else if outcomes[0] {
        assert(outcomes[0]);
    } else {
        lemma_phase_advances_iff_success_within_budget(outcomes.skip(1), budget - 1);
        if spec_phase_advances(outcomes, budget) {
            let k = choose|k: int| 0 <= k < budget - 1 && outcomes.skip(1)[k];
            assert(outcomes[k + 1]);
        }
        if exists|k: int| 0 <= k < budget && outcomes[k] {
            let k = choose|k: int| 0 <= k < budget && outcomes[k];
            assert(k != 0);
            assert(outcomes.skip(1)[k - 1]);
        }
    }
}

/// Local resource accounting of one node: the declared totals and the
/// most recent completed measurement of consumption.
pub struct NodeResources {
    pub node_id: NodeIdentifier,
    pub total: ResourceSummary,
    pub used: ResourceSummary,
}

impl NodeResources {
    /// Fresh accounting for a node whose capacity was measured once at
    /// startup; nothing is consumed yet.
    pub fn new(node_id: NodeIdentifier, total: ResourceSummary) -> (r: NodeResources)
        ensures
            r.node_id == node_id,
            r.total == total,
            r.used.cpu == 0 && r.used.memory == 0 && r.used.disk == 0,
    {
        NodeResources { node_id, total, used: ResourceSummary::zero() }
    }

    /// Takes over a freshly completed measurement: the newest measurement
    /// wins outright, nothing is merged or averaged.
    pub fn record_measurement(&mut self, usage: ResourceSummary)
        ensures
            final(self).used == usage,
            final(self).node_id == old(self).node_id,
            final(self).total == old(self).total,
    {
        self.used = usage;
    }

    /// One heartbeat message: the node's identity, a running status, the
    /// declared totals and the latest sampled usage.
    pub fn status_report(&self) -> (r: NodeStatus)
        ensures
            r.id@ == self.node_id@,
            r.status == spec_state_code(InstanceState::Running),
            r.status_description@ =~= Seq::<char>::empty(),
            r.resource == (Some(
                Resource { limit: Some(self.total), usage: Some(self.used) },
            )),
    {
        NodeStatus {
            id: self.node_id.clone(),
            status: state_code(InstanceState::Running),
            status_description: String::new(),
            resource: Some(Resource { limit: Some(self.total), usage: Some(self.used) }),
        }
    }
}

/// The lifecycle report a node emits for one of its instances: the
/// instance's current state as a wire code, its description and its
/// resource record.
pub fn instance_report(instance: &Instance) -> (r: InstanceStatus)
    ensures
        r.id@ == instance.id@,
        r.status == spec_state_code(instance.state),
        r.status_description@ == instance.status_description@,
        r.resource == instance.resource,
{
    InstanceStatus {
        id: instance.id.clone(),
        status: state_code(instance.state),
        status_description: instance.status_description.clone(),
        resource: instance.resource,
    }
}

/// Executes lifecycle operations for the instances assigned to this
/// node and surfaces their status transitions as reports.
pub struct WorkloadManager {
    pub node_id: NodeIdentifier,
    pub instances: Vec<Instance>,
}

impl WorkloadManager {
    /// Instance identifiers on one node are unique.
    pub open spec fn wf(&self) -> bool {
        forall|i: int, j: int|
            0 <= i < j < self.instances@.len() ==> self.instances@[i].id@ != self.instances@[j].id@
    }

    /// A manager with no local instances yet.
    pub fn new(node_id: NodeIdentifier) -> (r: WorkloadManager)
        ensures
            r.wf(),
            r.node_id == node_id,
            r.instances@.len() == 0,
    {
        WorkloadManager { node_id, instances: Vec::new() }
    }

    /// Position of a local instance, if this node runs it.
    fn position(&self, id: &String) -> (r: Option<usize>)
        ensures
            match r {
                Some(j) => j < self.instances@.len() && self.instances@[j as int].id@ == id@,
                None => forall|j: int|
                    0 <= j < self.instances@.len() ==> self.instances@[j].id@ != id@,
            },
    {
        let mut i: usize = 0;
        while i < self.instances.len()
            invariant
                i <= self.instances@.len(),
                forall|k: int| 0 <= k < i ==> self.instances@[k].id@ != id@,
            decreases self.instances@.len() - i,
        {
            if self.instances[i].id.eq(id) {
                return Some(i);
            }
            i += 1;
        }
        None
    }

    /// Takes a new instance into execution and hands back the first
    /// report of its status stream — the instance as it arrived. An
    /// identifier this node already runs is refused.
    pub fn create(&mut self, instance: Instance) -> (r: Result<InstanceStatus, WorkloadError>)
        requires
            old(self).wf(),
        ensures
            final(self).wf(),
            final(self).node_id == old(self).node_id,
            match r {
                Ok(rep) => {
                    &&& final(self).instances@ == old(self).instances@.push(instance)
                    &&& rep.id@ == instance.id@
                    &&& rep.status == spec_state_code(instance.state)
                    &&& rep.resource == instance.resource
                },
                Err(e) => {
                    &&& e == WorkloadError::DuplicateInstance
                    &&& exists|j: int|
                        0 <= j < old(self).instances@.len()
                            && #[trigger] old(self).instances@[j].id@ == instance.id@
                    &&& final(self).instances@ == old(self).instances@
                },
            },
    {
        if let Some(_) = self.position(&instance.id) {
            return Err(WorkloadError::DuplicateInstance);
        }
        let report = instance_report(&instance);
        self.instances.push(instance);
        Ok(report)
    }

    /// Marks a local instance as running and hands back the report that
    /// the transition pushes into the status stream.
    pub fn start_instance(&mut self, id: &String) -> (r: Result<InstanceStatus, WorkloadError>)
        requires
            old(self).wf(),
        ensures
            final(self).wf(),
            final(self).node_id == old(self).node_id,
            final(self).instances@.len() == old(self).instances@.len(),
            match r {
                Ok(rep) => {
                    &&& rep.id@ == id@
                    &&& rep.status == spec_state_code(InstanceState::Running)
                    &&& forall|k: int|
                        0 <= k < old(self).instances@.len() ==> #[trigger] final(self).instances@[k]
                            == (if old(self).instances@[k].id@ == id@ {
                            Instance { state: InstanceState::Running, ..old(self).instances@[k] }
                        } else {
                            old(self).instances@[k]
                        })
                },
                Err(e) => {
                    &&& e == WorkloadError::InstanceNotFound
                    &&& (forall|j: int|
                        0 <= j < old(self).instances@.len()
                            ==> #[trigger] old(self).instances@[j].id@ != id@)
                    &&& final(self).instances@ == old(self).instances@
                },
            },
    {
        self.transition(id, InstanceState::Running)
    }

    /// Delivers a control signal to a local instance: `Stop` leaves it
    /// `Stopped`, `Kill` leaves it `Failed`; either way the transition's
    /// report is handed back for the status stream. A signal for an
    /// instance this node does not run is a local error, reported to the
    /// caller and not retried.
    pub fn signal(&mut self, instruction: &SignalInstruction) -> (r: Result<
        InstanceStatus,
        WorkloadError,
    >)
        requires
            old(self).wf(),
        ensures
            final(self).wf(),
            final(self).node_id == old(self).node_id,
            final(self).instances@.len() == old(self).instances@.len(),
            match r {
                Ok(rep) => {
                    &&& rep.id@ == instruction.instance_id@
                    &&& rep.status == spec_state_code(
                        if instruction.signal == Signal::Stop {
                            InstanceState::Stopped
                        } else {
                            InstanceState::Failed
                        },
                    )
                    &&& forall|k: int|
                        0 <= k < old(self).instances@.len() ==> #[trigger] final(self).instances@[k]
                            == (if old(self).instances@[k].id@ == instruction.instance_id@ {
                            Instance {
                                state: if instruction.signal == Signal::Stop {
                                    InstanceState::Stopped
                                } else {
                                    InstanceState::Failed
                                },
                                ..old(self).instances@[k]
                            }
                        } else {
                            old(self).instances@[k]
                        })
                },
                Err(e) => {
                    &&& e == WorkloadError::InstanceNotFound
                    &&& (forall|j: int|
                        0 <= j < old(self).instances@.len()
                            ==> #[trigger] old(self).instances@[j].id@ != instruction.instance_id@)
                    &&& final(self).instances@ == old(self).instances@
                },
            },
    {
        let target = if instruction.signal == Signal::Stop {
            InstanceState::Stopped
        } else {
            InstanceState::Failed
        };
        self.transition(&instruction.instance_id, target)
    }

    /// Moves one local instance to the given state and reports it.
    fn transition(&mut self, id: &String, target: InstanceState) -> (r: Result<
        InstanceStatus,
        WorkloadError,
    >)
        requires
            old(self).wf(),
        ensures
            final(self).wf(),
            final(self).node_id == old(self).node_id,
            final(self).instances@.len() == old(self).instances@.len(),
            match r {
                Ok(rep) => {
                    &&& rep.id@ == id@
                    &&& rep.status == spec_state_code(target)
                    &&& forall|k: int|
                        0 <= k < old(self).instances@.len() ==> #[trigger] final(self).instances@[k]
                            == (if old(self).instances@[k].id@ == id@ {
                            Instance { state: target, ..old(self).instances@[k] }
                        } else {
                            old(self).instances@[k]
                        })
                },
                Err(e) => {
                    &&& e == WorkloadError::InstanceNotFound
                    &&& (forall|j: int|
                        0 <= j < old(self).instances@.len()
                            ==> #[trigger] old(self).instances@[j].id@ != id@)
                    &&& final(self).instances@ == old(self).instances@
                },
            },
    {
        let j = match self.position(id) {
            Some(j) => j,
            None => {
                return Err(WorkloadError::InstanceNotFound);
            },
        };
        let mut inst = self.instances.remove(j);
        inst.state = target;
        let report = instance_report(&inst);
        self.instances.insert(j, inst);
        proof {
            assert forall|k: int|
                0 <= k < old(self).instances@.len() implies #[trigger] self.instances@[k] == (if old(
                self,
            ).instances@[k].id@ == id@ {
                Instance { state: target, ..old(self).instances@[k] }
            } else {
                old(self).instances@[k]
            }) by {
                if k != j {
                    assert(old(self).instances@[k].id@ != id@);
                }
            }
            assert forall|i: int, j2: int|
                0 <= i < j2 < self.instances@.len() implies self.instances@[i].id@
                != self.instances@[j2].id@ by {
                assert(self.instances@[i].id@ == old(self).instances@[i].id@);
                assert(self.instances@[j2].id@ == old(self).instances@[j2].id@);
            }
        }
        Ok(report)
    }
}

/// The node-side instance service: what the Scheduler's create and
/// signal calls operate on once the transport handed them over.
pub struct InstanceServiceController {
    pub workload_manager: WorkloadManager,
}

impl InstanceServiceController {
    /// A service for a node that runs nothing yet.
    pub fn new(node_id: NodeIdentifier) -> (r: InstanceServiceController)
        ensures
            r.workload_manager.wf(),
            r.workload_manager.node_id == node_id,
            r.workload_manager.instances@.len() == 0,
    {
        InstanceServiceController { workload_manager: WorkloadManager::new(node_id) }
    }

    /// Accepts a create call: the workload manager takes the instance
    /// into execution, and the first report of its status stream is
    /// handed back to flow to the Scheduler. An accept is refused only
    /// for an identifier this node already runs — any fresh instance is
    /// taken in; execution trouble after the accept is reported through
    /// the status stream, never through this call.
    pub fn create(&mut self, instance: Instance) -> (r: Result<InstanceStatus, WorkloadError>)
        requires
            old(self).workload_manager.wf(),
        ensures
            final(self).workload_manager.wf(),
            final(self).workload_manager.node_id == old(self).workload_manager.node_id,
            match r {
                Ok(rep) => {
                    &&& final(self).workload_manager.instances@
                        == old(self).workload_manager.instances@.push(instance)
                    &&& rep.id@ == instance.id@
                    &&& rep.status == spec_state_code(instance.state)
                    &&& rep.resource == instance.resource
                },
                Err(e) => {
                    &&& e == WorkloadError::DuplicateInstance
                    &&& exists|j: int|
                        0 <= j < old(self).workload_manager.instances@.len()
                            && #[trigger] old(self).workload_manager.instances@[j].id@
                            == instance.id@
                    &&& final(self).workload_manager.instances@
                        == old(self).workload_manager.instances@
                },
            },
    {
        self.workload_manager.create(instance)
    }

    /// Accepts a signal call and delegates it to the workload manager:
    /// the named instance transitions (`Stop` to `Stopped`, `Kill` to
    /// `Failed`) and the transition's report comes back; naming an
    /// instance this node does not run is a local error, if and only if.
    pub fn signal(&mut self, instruction: &SignalInstruction) -> (r: Result<
        InstanceStatus,
        WorkloadError,
    >)
        requires
            old(self).workload_manager.wf(),
        ensures
            final(self).workload_manager.wf(),
            final(self).workload_manager.node_id == old(self).workload_manager.node_id,
            final(self).workload_manager.instances@.len()
                == old(self).workload_manager.instances@.len(),
            match r {
                Ok(rep) => {
                    &&& rep.id@ == instruction.instance_id@
                    &&& rep.status == spec_state_code(
                        if instruction.signal == Signal::Stop {
                            InstanceState::Stopped
                        } else {
                            InstanceState::Failed
                        },
                    )
                    &&& forall|k: int|
                        0 <= k < old(self).workload_manager.instances@.len()
                            ==> #[trigger] final(self).workload_manager.instances@[k] == (if old(
                            self,
                        ).workload_manager.instances@[k].id@ == instruction.instance_id@ {
                            Instance {
                                state: if instruction.signal == Signal::Stop {
                                    InstanceState::Stopped
                                } else {
                                    InstanceState::Failed
                                },
                                ..old(self).workload_manager.instances@[k]
                            }
                        } else {
                            old(self).workload_manager.instances@[k]
                        })
                },
                Err(e) => {
                    &&& e == WorkloadError::InstanceNotFound
                    &&& (forall|j: int|
                        0 <= j < old(self).workload_manager.instances@.len()
                            ==> #[trigger] old(self).workload_manager.instances@[j].id@
                            != instruction.instance_id@)
                    &&& final(self).workload_manager.instances@
                        == old(self).workload_manager.instances@
                },
            },
    {
        self.workload_manager.signal(instruction)
    }
}

} // verus!
