//! The Scheduler's authoritative state: the node registry, the instance
//! registry, and the lifecycle operations over them — registration,
//! placement, stop, destroy, and status ingestion. Every operation returns
//! a typed result and leaves the registries in a stated shape; placement
//! charges the declared limits of already-placed instances against each
//! node's declared capacity and never over-subscribes.

use vstd::prelude::*;
use crate::model::{spec_limit_of, limit_of, NodeState, Resource, ResourceSummary, Instance, InstanceState, IpAddress};
use crate::messages::{NodeRegisterRequest, NodeRegisterResponse, NodeUnregisterRequest, NodeUnregisterResponse, NodeStatus, InstanceStatus, spec_state_or_default, state_or_default};
use crate::{NodeIdentifier, InstanceIdentifier};

verus! {

/// The Scheduler-side error taxonomy: what every orchestration operation
/// can report to its caller.
#[derive(Clone, Copy, Debug, PartialEq, Eq, Structural)]
pub enum OrchestratorError {
    /// The named instance, node or workload is not in the registry.
    NotFound,
    /// No registered node has enough free declared capacity.
    NoCapacity,
    /// A status report named a node that never registered.
    UnknownNode,
    /// The transport to a node agent failed.
    TransportError,
    /// An unexpected or opaque failure, such as an identifier collision.
    Internal,
    /// The process configuration is unreadable or invalid.
    ConfigError,
}

/// A worker node as the Scheduler records it: declared capacity, the most
/// recently reported consumption, and its connectivity state.
#[derive(Clone, Debug)]
pub struct Node {
    pub id: NodeIdentifier,
    pub state: NodeState,
    pub total: ResourceSummary,
    pub usage: ResourceSummary,
}

/// An instance together with the node it was placed on.
#[derive(Clone, Debug)]
pub struct PlacedInstance {
    pub instance: Instance,
    pub node_id: NodeIdentifier,
}

/// Sum of the declared limits of the instances placed on the given node:
/// cpu, memory and disk, as unbounded integers.
pub open spec fn spec_used(s: Seq<PlacedInstance>, node_id: Seq<char>) -> (int, int, int)
    decreases s.len(),
{
    if s.len() == 0 {
        (0int, 0int, 0int)
    } else {
        let rest = spec_used(s.drop_last(), node_id);
        let l = spec_limit_of(s.last().instance.resource);
        if s.last().node_id@ == node_id {
            (rest.0 + l.cpu, rest.1 + l.memory, rest.2 + l.disk)
        } else {
            rest
        }
    }
}

/// A node qualifies for a request when the declared limits of everything
/// already placed on it, plus the requested limit, stay within its
/// declared capacity — on all three resources.
pub open spec fn spec_node_fits(n: Node, placed: Seq<PlacedInstance>, req: ResourceSummary) -> bool {
    let u = spec_used(placed, n.id@);
    &&& u.0 + req.cpu <= n.total.cpu
    &&& u.1 + req.memory <= n.total.memory
    &&& u.2 + req.disk <= n.total.disk
}

/// Whether some registered node holds the identifier.
pub open spec fn spec_has_node(nodes: Seq<Node>, id: Seq<char>) -> bool {
    exists|j: int| 0 <= j < nodes.len() && nodes[j].id@ == id
}

/// Whether some recorded instance holds the identifier.
pub open spec fn spec_has_instance(s: Seq<PlacedInstance>, id: Seq<char>) -> bool {
    exists|j: int| 0 <= j < s.len() && s[j].instance.id@ == id
}

/// The entry an instance lifecycle transition leaves behind: the same
/// placement, with only the lifecycle state replaced.
pub open spec fn spec_with_state(p: PlacedInstance, st: InstanceState) -> PlacedInstance {
    PlacedInstance { instance: Instance { state: st, ..p.instance }, node_id: p.node_id }
}

/// How a status report lands in a placed instance's record: state (an
/// unknown code falls back to `Scheduling`), description, and observed
/// usage are overwritten; the declared limit and the placement stay.
pub open spec fn spec_with_report(p: PlacedInstance, rep: InstanceStatus) -> PlacedInstance {
    PlacedInstance {
        instance: Instance {
            state: spec_state_or_default(rep.status),
            status_description: rep.status_description,
            resource: crate::model::spec_resource_after_report(p.instance.resource, rep.resource),
            ..p.instance
        },
        node_id: p.node_id,
    }
}

/// How a node status report lands in the node's record: declared totals
/// and observed usage are overwritten by the report where it carries
/// them — the newest report wins, nothing is merged — and a node that
/// reports is running.
pub open spec fn spec_refreshed_node(n: Node, rep: NodeStatus) -> Node {
    Node {
        id: n.id,
        state: NodeState::Running,
        total: match rep.resource {
            Some(r) => match r.limit {
                Some(l) => l,
                None => n.total,
            },
            None => n.total,
        },
        usage: match rep.resource {
            Some(r) => match r.usage {
                Some(u) => u,
                None => n.usage,
            },
            None => n.usage,
        },
    }
}

/// The authoritative lifecycle manager of the cluster. All access is
/// serialized by the owner of this value; the operations below are the
/// whole interface through which its state changes.
pub struct Orchestrator {
    pub nodes: Vec<Node>,
    pub instances: Vec<PlacedInstance>,
}

impl Orchestrator {
    /// Registry well-formedness: node identifiers are unique, and so are
    /// instance identifiers.
    pub open spec fn wf(&self) -> bool {
        &&& (forall|i: int, j: int|
            0 <= i < j < self.nodes@.len() ==> self.nodes@[i].id@ != self.nodes@[j].id@)
        &&& (forall|i: int, j: int|
            0 <= i < j < self.instances@.len()
                ==> self.instances@[i].instance.id@ != self.instances@[j].instance.id@)
    }

    /// An empty cluster: no nodes, no instances.
    pub fn new() -> (r: Orchestrator)
        ensures
            r.wf(),
            r.nodes@.len() == 0,
            r.instances@.len() == 0,
    {
        Orchestrator { nodes: Vec::new(), instances: Vec::new() }
    }

    /// Position of the node with the given identifier, if registered.
    fn node_position(&self, id: &String) -> (r: Option<usize>)
        ensures
            match r {
                Some(j) => j < self.nodes@.len() && self.nodes@[j as int].id@ == id@,
                None => !spec_has_node(self.nodes@, id@),
            },
    {
        let mut i: usize = 0;
        while i < self.nodes.len()
            invariant
                i <= self.nodes@.len(),
                forall|k: int| 0 <= k < i ==> self.nodes@[k].id@ != id@,
            decreases self.nodes@.len() - i,
        {
            if self.nodes[i].id.eq(id) {
                return Some(i);
            }
            i += 1;
        }
        None
    }

    /// Position of the instance with the given identifier, if recorded.
    fn instance_position(&self, id: &String) -> (r: Option<usize>)
        ensures
            match r {
                Some(j) => j < self.instances@.len() && self.instances@[j as int].instance.id@ == id@,
                None => !spec_has_instance(self.instances@, id@),
            },
    {
        let mut i: usize = 0;
        while i < self.instances.len()
            invariant
                i <= self.instances@.len(),
                forall|k: int| 0 <= k < i ==> self.instances@[k].instance.id@ != id@,
            decreases self.instances@.len() - i,
        {
            if self.instances[i].instance.id.eq(id) {
                return Some(i);
            }
            i += 1;
        }
        None
    }

    /// Read access to a node's record.
    pub fn get_node(&self, id: &String) -> (r: Option<&Node>)
        ensures
            match r {
                Some(n) => spec_has_node(self.nodes@, id@) && exists|j: int|
                    0 <= j < self.nodes@.len() && self.nodes@[j] == *n && n.id@ == id@,
                None => !spec_has_node(self.nodes@, id@),
            },
    {
        match self.node_position(id) {
            Some(j) => Some(&self.nodes[j]),
            None => None,
        }
    }

    /// Read access to an instance's record and its placement.
    pub fn get_instance(&self, id: &String) -> (r: Option<&PlacedInstance>)
        ensures
            match r {
                Some(p) => spec_has_instance(self.instances@, id@) && exists|j: int|
                    0 <= j < self.instances@.len() && self.instances@[j] == *p
                        && p.instance.id@ == id@,
                None => !spec_has_instance(self.instances@, id@),
            },
    {
        match self.instance_position(id) {
            Some(j) => Some(&self.instances[j]),
            None => None,
        }
    }

    /// Validates the presented credential and inserts (or, for a node that
    /// was already known, replaces — never duplicates) the node's record,
    /// with zeroed capacity and usage until its first report, returning
    /// the network identity assigned from the caller's source address. An
    /// empty credential is rejected and changes nothing.
    pub fn register_node(&mut self, request: NodeRegisterRequest, source: IpAddress) -> (r: Result<
        NodeRegisterResponse,
        OrchestratorError,
    >)
        requires
            old(self).wf(),
        ensures
            final(self).wf(),
            final(self).instances@ == old(self).instances@,
            match r {
                Ok(resp) => {
                    &&& request.certificate@.len() > 0
                    &&& resp.ip == source
                    &&& spec_has_node(final(self).nodes@, request.certificate@)
                    &&& {
                        let fresh = Node {
                            id: request.certificate,
                            state: NodeState::Registered,
                            total: ResourceSummary { cpu: 0, memory: 0, disk: 0 },
                            usage: ResourceSummary { cpu: 0, memory: 0, disk: 0 },
                        };
                        if spec_has_node(old(self).nodes@, request.certificate@) {
                            exists|j: int|
                                0 <= j < old(self).nodes@.len()
                                    && old(self).nodes@[j].id@ == request.certificate@
                                    && final(self).nodes@ == old(self).nodes@.update(j, fresh)
                        } else {
                            final(self).nodes@ == old(self).nodes@.push(fresh)
                        }
                    }
                },
                Err(e) => {
                    &&& e == OrchestratorError::Internal
                    &&& request.certificate@.len() == 0
                    &&& final(self).nodes@ == old(self).nodes@
                },
            },
    {
        if request.certificate.as_str().is_empty() {
            return Err(OrchestratorError::Internal);
        }
        let fresh = Node {
            id: request.certificate,
            state: NodeState::Registered,
            total: ResourceSummary::zero(),
            usage: ResourceSummary::zero(),
        };
        match self.node_position(&fresh.id) {
            Some(j) => {
                self.nodes.remove(j);
                self.nodes.insert(j, fresh);
                proof {
                    assert(self.nodes@ =~= old(self).nodes@.update(
                        j as int,
                        self.nodes@[j as int],
                    ));
                    assert(self.nodes@[j as int].id@ == old(self).nodes@[j as int].id@);
                    assert(spec_has_node(self.nodes@, request.certificate@));
                    assert forall|i: int, j2: int|
                        0 <= i < j2 < self.nodes@.len() implies self.nodes@[i].id@
                        != self.nodes@[j2].id@ by {
                        if i != j && j2 != j {
                            assert(self.nodes@[i].id@ == old(self).nodes@[i].id@);
                            assert(self.nodes@[j2].id@ == old(self).nodes@[j2].id@);
                        }
                    }
                }
            },
            None => {
                self.nodes.push(fresh);
                proof {
                    assert(self.nodes@[self.nodes@.len() - 1].id@ == request.certificate@);
                    assert(spec_has_node(self.nodes@, request.certificate@));
                }
            },
        }
        Ok(NodeRegisterResponse { ip: source })
    }

    /// Removes the node and marks every instance still placed on it as
    /// `Failed` — the loss stays observable, nothing is silently dropped.
    /// An unknown node is reported as `NotFound` and changes nothing.
    pub fn unregister_node(&mut self, request: NodeUnregisterRequest) -> (r: Result<
        NodeUnregisterResponse,
        OrchestratorError,
    >)
        requires
            old(self).wf(),
        ensures
            final(self).wf(),
            match r {
                Ok(resp) => {
                    &&& resp.id == request.id
                    &&& spec_has_node(old(self).nodes@, request.id@)
                    &&& exists|j: int|
                        0 <= j < old(self).nodes@.len() && old(self).nodes@[j].id@ == request.id@
                            && final(self).nodes@ == old(self).nodes@.remove(j)
                    &&& final(self).instances@.len() == old(self).instances@.len()
                    &&& forall|k: int|
                        0 <= k < old(self).instances@.len() ==> #[trigger] final(self).instances@[k]
                            == (if old(self).instances@[k].node_id@ == request.id@ {
                            spec_with_state(old(self).instances@[k], InstanceState::Failed)
                        } else {
                            old(self).instances@[k]
                        })
                },
                Err(e) => {
                    &&& e == OrchestratorError::NotFound
                    &&& !spec_has_node(old(self).nodes@, request.id@)
                    &&& final(self).nodes@ == old(self).nodes@
                    &&& final(self).instances@ == old(self).instances@
                },
            },
    {
        let j = match self.node_position(&request.id) {
            Some(j) => j,
            None => {
                return Err(OrchestratorError::NotFound);
            },
        };
        self.nodes.remove(j);
        let ghost orig = self.instances@;
        let ghost nodes_after = self.nodes@;
        let mut k: usize = 0;
        while k < self.instances.len()
            invariant
                self.nodes@ == nodes_after,
                self.instances@.len() == orig.len(),
                forall|m: int|
                    0 <= m < k ==> #[trigger] self.instances@[m] == (if orig[m].node_id@
                        == request.id@ {
                        spec_with_state(orig[m], InstanceState::Failed)
                    } else {
                        orig[m]
                    }),
                forall|m: int| k <= m < orig.len() ==> self.instances@[m] == orig[m],
            decreases orig.len() - k,
        {
            if self.instances[k].node_id.eq(&request.id) {
                let mut p = self.instances.remove(k);
                p.instance.state = InstanceState::Failed;
                self.instances.insert(k, p);
            }
            k += 1;
        }
        proof {
            assert forall|i: int, j2: int|
                0 <= i < j2 < self.instances@.len() implies self.instances@[i].instance.id@
                != self.instances@[j2].instance.id@ by {
                assert(self.instances@[i].instance.id@ == orig[i].instance.id@);
                assert(self.instances@[j2].instance.id@ == orig[j2].instance.id@);
            }
            assert forall|i: int, j2: int|
                0 <= i < j2 < self.nodes@.len() implies self.nodes@[i].id@
                != self.nodes@[j2].id@ by {
                assert(self.nodes@[i] == (if i < j {
                    old(self).nodes@[i]
                } else {
                    old(self).nodes@[i + 1]
                }));
                assert(self.nodes@[j2] == (if j2 < j {
                    old(self).nodes@[j2]
                } else {
                    old(self).nodes@[j2 + 1]
                }));
            }
        }
        Ok(NodeUnregisterResponse { id: request.id })
    }

    /// Whether the node can still take the requested limit, given
    /// everything already placed on it.
    fn node_has_capacity(&self, n: &Node, req: &ResourceSummary) -> (r: bool)
        ensures
            r == spec_node_fits(*n, self.instances@, *req),
    {
        let total = self.instances.len();
        let mut cpu: u128 = 0;
        let mut memory: u128 = 0;
        let mut disk: u128 = 0;
        let mut i: usize = 0;
        while i < total
            invariant
                i <= total,
                total == self.instances@.len(),
                cpu == spec_used(self.instances@.take(i as int), n.id@).0,
                memory == spec_used(self.instances@.take(i as int), n.id@).1,
                disk == spec_used(self.instances@.take(i as int), n.id@).2,
                cpu <= i * 0xffff_ffff_ffff_ffffu128,
                memory <= i * 0xffff_ffff_ffff_ffffu128,
                disk <= i * 0xffff_ffff_ffff_ffffu128,
            decreases total - i,
        {
            proof {
                lemma_acc_bound(i as int);
                lemma_acc_step(i as int);
                assert(self.instances@.take(i + 1).drop_last() =~= self.instances@.take(i as int));
                assert(self.instances@.take(i + 1).last() == self.instances@[i as int]);
            }
            if self.instances[i].node_id.eq(&n.id) {
                let l = limit_of(&self.instances[i].instance.resource);
                cpu = cpu + l.cpu as u128;
                memory = memory + l.memory as u128;
                disk = disk + l.disk as u128;
            }
            i += 1;
        }
        proof {
            lemma_acc_bound(total as int);
            assert(self.instances@.take(total as int) =~= self.instances@);
        }
        cpu + req.cpu as u128 <= n.total.cpu as u128 && memory + req.memory as u128
            <= n.total.memory as u128 && disk + req.disk as u128 <= n.total.disk as u128
    }

    /// First registered node that can take the requested limit, if any.
    fn find_node(&self, req: &ResourceSummary) -> (r: Option<usize>)
        ensures
            match r {
                Some(j) => j < self.nodes@.len() && spec_node_fits(
                    self.nodes@[j as int],
                    self.instances@,
                    *req,
                ),
                None => forall|j: int|
                    0 <= j < self.nodes@.len() ==> !spec_node_fits(
                        #[trigger] self.nodes@[j],
                        self.instances@,
                        *req,
                    ),
            },
    {
        let mut i: usize = 0;
        while i < self.nodes.len()
            invariant
                i <= self.nodes@.len(),
                forall|k: int|
                    0 <= k < i ==> !spec_node_fits(#[trigger] self.nodes@[k], self.instances@, *req),
            decreases self.nodes@.len() - i,
        {
            if self.node_has_capacity(&self.nodes[i], req) {
                return Some(i);
            }
            i += 1;
        }
        None
    }

    /// Places an instance: chooses any registered node whose declared free
    /// capacity covers the instance's declared limit, records the instance
    /// on it, and returns the chosen node's identifier so the caller can
    /// forward the create call there. When no node qualifies the request
    /// fails with `NoCapacity` and the registries are left untouched; a
    /// colliding instance identifier is an `Internal` failure, equally
    /// without effect.
    pub fn create_instance(&mut self, instance: Instance) -> (r: Result<
        NodeIdentifier,
        OrchestratorError,
    >)
        requires
            old(self).wf(),
        ensures
            final(self).wf(),
            final(self).nodes@ == old(self).nodes@,
            match r {
                Ok(nid) => {
                    &&& !spec_has_instance(old(self).instances@, instance.id@)
                    &&& exists|j: int|
                        0 <= j < old(self).nodes@.len() && old(self).nodes@[j].id@ == nid@
                            && spec_node_fits(
                            old(self).nodes@[j],
                            old(self).instances@,
                            spec_limit_of(instance.resource),
                        )
                    &&& final(self).instances@ == old(self).instances@.push(
                        PlacedInstance { instance: instance, node_id: nid },
                    )
                },
                Err(OrchestratorError::Internal) => {
                    &&& spec_has_instance(old(self).instances@, instance.id@)
                    &&& final(self).instances@ == old(self).instances@
                },
                Err(OrchestratorError::NoCapacity) => {
                    &&& !spec_has_instance(old(self).instances@, instance.id@)
                    &&& forall|j: int|
                        0 <= j < old(self).nodes@.len() ==> !spec_node_fits(
                            #[trigger] old(self).nodes@[j],
                            old(self).instances@,
                            spec_limit_of(instance.resource),
                        )
                    &&& final(self).instances@ == old(self).instances@
                },
                Err(_) => false,
            },
    {
        if let Some(_) = self.instance_position(&instance.id) {
            return Err(OrchestratorError::Internal);
        }
        let req = limit_of(&instance.resource);
        match self.find_node(&req) {
            Some(j) => {
                let node_id = self.nodes[j].id.clone();
                let placed = PlacedInstance { instance, node_id };
                let nid = placed.node_id.clone();
                self.instances.push(placed);
                Ok(nid)
            },
            None => Err(OrchestratorError::NoCapacity),
        }
    }

    /// Looks up where the instance runs, so the caller can forward a stop
    /// or destroy instruction to that node's instance service. An unknown
    /// identifier is `NotFound`. Nothing changes yet: the lifecycle
    /// transition is recorded only once the node acknowledged, by
    /// [`Orchestrator::record_instance_stopped`] or
    /// [`Orchestrator::record_instance_destroyed`].
    pub fn instance_target_node(&self, id: &InstanceIdentifier) -> (r: Result<
        NodeIdentifier,
        OrchestratorError,
    >)
        ensures
            match r {
                Ok(nid) => exists|j: int|
                    0 <= j < self.instances@.len() && #[trigger] self.instances@[j].instance.id@
                        == id@ && self.instances@[j].node_id@ == nid@,
                Err(e) => e == OrchestratorError::NotFound && !spec_has_instance(
                    self.instances@,
                    id@,
                ),
            },
    {
        match self.instance_position(id) {
            Some(j) => Ok(self.instances[j].node_id.clone()),
            None => Err(OrchestratorError::NotFound),
        }
    }

    /// Records that the hosting node acknowledged a stop: the instance
    /// transitions to `Stopped` and stays queryable; everything else is
    /// untouched. An unknown identifier is `NotFound`.
    pub fn record_instance_stopped(&mut self, id: &InstanceIdentifier) -> (r: Result<
        (),
        OrchestratorError,
    >)
        requires
            old(self).wf(),
        ensures
            final(self).wf(),
            final(self).nodes@ == old(self).nodes@,
            final(self).instances@.len() == old(self).instances@.len(),
            match r {
                Ok(()) => {
                    &&& spec_has_instance(old(self).instances@, id@)
                    &&& forall|k: int|
                        0 <= k < old(self).instances@.len() ==> #[trigger] final(self).instances@[k]
                            == (if old(self).instances@[k].instance.id@ == id@ {
                            spec_with_state(old(self).instances@[k], InstanceState::Stopped)
                        } else {
                            old(self).instances@[k]
                        })
                },
                Err(e) => {
                    &&& e == OrchestratorError::NotFound
                    &&& !spec_has_instance(old(self).instances@, id@)
                    &&& final(self).instances@ == old(self).instances@
                },
            },
    {
        let j = match self.instance_position(id) {
            Some(j) => j,
            None => {
                return Err(OrchestratorError::NotFound);
            },
        };
        let mut p = self.instances.remove(j);
        p.instance.state = InstanceState::Stopped;
        self.instances.insert(j, p);
        proof {
            assert forall|k: int|
                0 <= k < old(self).instances@.len() implies #[trigger] self.instances@[k] == (if old(
                self,
            ).instances@[k].instance.id@ == id@ {
                spec_with_state(old(self).instances@[k], InstanceState::Stopped)
            } else {
                old(self).instances@[k]
            }) by {
                if k != j {
                    assert(old(self).instances@[k].instance.id@ != id@);
                }
            }
            assert forall|i: int, j2: int|
                0 <= i < j2 < self.instances@.len() implies self.instances@[i].instance.id@
                != self.instances@[j2].instance.id@ by {
                assert(self.instances@[i].instance.id@ == old(self).instances@[i].instance.id@);
                assert(self.instances@[j2].instance.id@ == old(self).instances@[j2].instance.id@);
            }
        }
        Ok(())
    }

    /// Records that the hosting node acknowledged a destroy: the instance
    /// is evicted from the registry. Only now does the identifier stop
    /// being queryable. An unknown identifier is `NotFound`.
    pub fn record_instance_destroyed(&mut self, id: &InstanceIdentifier) -> (r: Result<
        (),
        OrchestratorError,
    >)
        requires
            old(self).wf(),
        ensures
            final(self).wf(),
            final(self).nodes@ == old(self).nodes@,
            match r {
                Ok(()) => {
                    &&& spec_has_instance(old(self).instances@, id@)
                    &&& exists|j: int|
                        0 <= j < old(self).instances@.len()
                            && #[trigger] old(self).instances@[j].instance.id@ == id@
                            && final(self).instances@ == old(self).instances@.remove(j)
                    &&& !spec_has_instance(final(self).instances@, id@)
                },
                Err(e) => {
                    &&& e == OrchestratorError::NotFound
                    &&& !spec_has_instance(old(self).instances@, id@)
                    &&& final(self).instances@ == old(self).instances@
                },
            },
    {
        let j = match self.instance_position(id) {
            Some(j) => j,
            None => {
                return Err(OrchestratorError::NotFound);
            },
        };
        self.instances.remove(j);
        proof {
            assert forall|k: int|
                0 <= k < self.instances@.len() implies #[trigger] self.instances@[k].instance.id@
                != id@ by {
                if k < j {
                    assert(self.instances@[k] == old(self).instances@[k]);
                } else {
                    assert(self.instances@[k] == old(self).instances@[k + 1]);
                }
            }
            assert forall|i: int, j2: int|
                0 <= i < j2 < self.instances@.len() implies self.instances@[i].instance.id@
                != self.instances@[j2].instance.id@ by {
                assert(self.instances@[i] == (if i < j {
                    old(self).instances@[i]
                } else {
                    old(self).instances@[i + 1]
                }));
                assert(self.instances@[j2] == (if j2 < j {
                    old(self).instances@[j2]
                } else {
                    old(self).instances@[j2 + 1]
                }));
            }
        }
        Ok(())
    }

    /// Ingests a node's periodic resource report: the report's declared
    /// totals and sampled usage overwrite the node's record — newest
    /// report wins — and the node is marked running. A report for a node
    /// that never registered is rejected as `UnknownNode` and creates no
    /// entry; the registries are left exactly as they were.
    pub fn update_node_status(&mut self, report: NodeStatus) -> (r: Result<
        (),
        OrchestratorError,
    >)
        requires
            old(self).wf(),
        ensures
            final(self).wf(),
            final(self).instances@ == old(self).instances@,
            final(self).nodes@.len() == old(self).nodes@.len(),
            match r {
                Ok(()) => {
                    &&& spec_has_node(old(self).nodes@, report.id@)
                    &&& exists|j: int|
                        0 <= j < old(self).nodes@.len() && #[trigger] old(self).nodes@[j].id@
                            == report.id@ && final(self).nodes@ == old(self).nodes@.update(
                            j,
                            spec_refreshed_node(old(self).nodes@[j], report),
                        )
                },
                Err(e) => {
                    &&& e == OrchestratorError::UnknownNode
                    &&& !spec_has_node(old(self).nodes@, report.id@)
                    &&& final(self).nodes@ == old(self).nodes@
                },
            },
    {
        let j = match self.node_position(&report.id) {
            Some(j) => j,
            None => {
                return Err(OrchestratorError::UnknownNode);
            },
        };
        let mut n = self.nodes.remove(j);
        n.state = NodeState::Running;
        match report.resource {
            Some(res) => {
                match res.limit {
                    Some(l) => {
                        n.total = l;
                    },
                    None => {},
                }
                match res.usage {
                    Some(u) => {
                        n.usage = u;
                    },
                    None => {},
                }
            },
            None => {},
        }
        self.nodes.insert(j, n);
        proof {
            assert(self.nodes@ =~= old(self).nodes@.update(
                j as int,
                spec_refreshed_node(old(self).nodes@[j as int], report),
            ));
            assert forall|i: int, j2: int|
                0 <= i < j2 < self.nodes@.len() implies self.nodes@[i].id@
                != self.nodes@[j2].id@ by {
                assert(self.nodes@[i].id@ == old(self).nodes@[i].id@);
                assert(self.nodes@[j2].id@ == old(self).nodes@[j2].id@);
            }
        }
        Ok(())
    }

    /// Ingests a node-originated report about one instance: the only
    /// channel through which observed lifecycle changes reach the
    /// registry. State, description and observed usage are overwritten;
    /// the declared limit and the placement stay. An unknown instance is
    /// `NotFound`, without effect.
    pub fn update_instance_status(&mut self, report: InstanceStatus) -> (r: Result<
        (),
        OrchestratorError,
    >)
        requires
            old(self).wf(),
        ensures
            final(self).wf(),
            final(self).nodes@ == old(self).nodes@,
            final(self).instances@.len() == old(self).instances@.len(),
            match r {
                Ok(()) => {
                    &&& spec_has_instance(old(self).instances@, report.id@)
                    &&& exists|j: int|
                        0 <= j < old(self).instances@.len()
                            && #[trigger] old(self).instances@[j].instance.id@ == report.id@
                            && final(self).instances@ == old(self).instances@.update(
                            j,
                            spec_with_report(old(self).instances@[j], report),
                        )
                },
                Err(e) => {
                    &&& e == OrchestratorError::NotFound
                    &&& !spec_has_instance(old(self).instances@, report.id@)
                    &&& final(self).instances@ == old(self).instances@
                },
            },
    {
        let j = match self.instance_position(&report.id) {
            Some(j) => j,
            None => {
                return Err(OrchestratorError::NotFound);
            },
        };
        let mut p = self.instances.remove(j);
        p.instance.state = state_or_default(report.status);
        p.instance.status_description = report.status_description;
        p.instance.resource = match p.instance.resource {
            Some(r) => Some(
                Resource {
                    limit: r.limit,
                    usage: match report.resource {
                        Some(nr) => nr.usage,
                        None => None,
                    },
                },
            ),
            None => None,
        };
        self.instances.insert(j, p);
        proof {
            assert(self.instances@ =~= old(self).instances@.update(
                j as int,
                spec_with_report(old(self).instances@[j as int], report),
            ));
            assert forall|i: int, j2: int|
                0 <= i < j2 < self.instances@.len() implies self.instances@[i].instance.id@
                != self.instances@[j2].instance.id@ by {
                assert(self.instances@[i].instance.id@ == old(self).instances@[i].instance.id@);
                assert(self.instances@[j2].instance.id@ == old(self).instances@[j2].instance.id@);
            }
        }
        Ok(())
    }
}

/// A capacity accumulator that has summed `i` limits, each at most the
/// largest `u64`, stays well below the top of `u128` while `i` fits in a
/// machine word — so the running sums in the capacity check never wrap.
proof fn lemma_acc_bound(i: int)
    requires
        0 <= i <= 0xffff_ffff_ffff_ffffu64,
    ensures
        i * 0xffff_ffff_ffff_ffffu128 <= 0xffff_ffff_ffff_ffffu128 * 0xffff_ffff_ffff_ffffu128,
{
    assert(i * 0xffff_ffff_ffff_ffffu128 <= 0xffff_ffff_ffff_ffffu128
        * 0xffff_ffff_ffff_ffffu128) by (nonlinear_arith)
        requires
            0 <= i <= 0xffff_ffff_ffff_ffffu64,
    ;
}

/// A recorded instance identifier names exactly one placement entry in a
/// well-formed registry — so a successfully placed instance is associated
/// with exactly one node.
pub proof fn lemma_instance_on_exactly_one_node(s: Seq<PlacedInstance>, id: Seq<char>)
    requires
        forall|i: int, j: int| 0 <= i < j < s.len() ==> s[i].instance.id@ != s[j].instance.id@,
        spec_has_instance(s, id),
    ensures
        exists|j: int| 0 <= j < s.len() && #[trigger] s[j].instance.id@ == id,
        forall|i: int, j: int|
            (0 <= i < s.len() && 0 <= j < s.len() && #[trigger] s[i].instance.id@ == id
                && #[trigger] s[j].instance.id@ == id) ==> i == j,
{
}

/// Recording a stop keeps the instance queryable, in `Stopped` state:
/// between a stop and the destroy that follows it, a lookup still finds
/// the instance, and finds it stopped. Only the destroy removes it (the
/// removal is stated by [`Orchestrator::record_instance_destroyed`]).
/// Here `s1` is the registry [`Orchestrator::record_instance_stopped`]
/// leaves behind, as its contract states it.
pub proof fn lemma_stop_keeps_instance_queryable(
    s: Seq<PlacedInstance>,
    s1: Seq<PlacedInstance>,
    id: Seq<char>,
)
    requires
        spec_has_instance(s, id),
        s1.len() == s.len(),
        forall|k: int|
            0 <= k < s.len() ==> #[trigger] s1[k] == (if s[k].instance.id@ == id {
                spec_with_state(s[k], InstanceState::Stopped)
            } else {
                s[k]
            }),
    ensures
        spec_has_instance(s1, id),
        forall|k: int|
            0 <= k < s1.len() && #[trigger] s1[k].instance.id@ == id ==> s1[k].instance.state
                == InstanceState::Stopped,
{
    let w = choose|j: int| 0 <= j < s.len() && #[trigger] s[j].instance.id@ == id;
    assert(s1[w].instance.id@ == id);
}

/// Placing an instance charges its declared limit against exactly its
/// node: the capacity sum of that node grows by the limit, and every
/// other node's sum is untouched.
pub proof fn lemma_placement_charges_node(s: Seq<PlacedInstance>, p: PlacedInstance, nid: Seq<char>)
    ensures
        p.node_id@ == nid ==> spec_used(s.push(p), nid) == (
            spec_used(s, nid).0 + spec_limit_of(p.instance.resource).cpu,
            spec_used(s, nid).1 + spec_limit_of(p.instance.resource).memory,
            spec_used(s, nid).2 + spec_limit_of(p.instance.resource).disk,
        ),
        p.node_id@ != nid ==> spec_used(s.push(p), nid) == spec_used(s, nid),
{
    assert(s.push(p).drop_last() =~= s);
}

/// No over-subscription: once an instance with limit `r1` is placed on a
/// node whose free capacity cannot also hold `r2`, the node no longer
/// qualifies for `r2`. Two requests racing for one unit of qualifying
/// capacity therefore cannot both succeed: the placement that is recorded
/// first consumes it, and the second request finds no fit.
pub proof fn lemma_no_oversubscription(
    s: Seq<PlacedInstance>,
    p: PlacedInstance,
    n: Node,
    r2: ResourceSummary,
)
    requires
        p.node_id@ == n.id@,
        !{
            let u = spec_used(s, n.id@);
            let r1 = spec_limit_of(p.instance.resource);
            &&& u.0 + r1.cpu + r2.cpu <= n.total.cpu
            &&& u.1 + r1.memory + r2.memory <= n.total.memory
            &&& u.2 + r1.disk + r2.disk <= n.total.disk
        },
    ensures
        !spec_node_fits(n, s.push(p), r2),
{
    lemma_placement_charges_node(s, p, n.id@);
}

/// One more limit raises the accumulator bound by exactly one step.
proof fn lemma_acc_step(i: int)
    requires
        0 <= i,
    ensures
        i * 0xffff_ffff_ffff_ffffu128 + 0xffff_ffff_ffff_ffffu128 == (i + 1)
            * 0xffff_ffff_ffff_ffffu128,
{
    assert(i * 0xffff_ffff_ffff_ffffu128 + 0xffff_ffff_ffff_ffffu128 == (i + 1)
        * 0xffff_ffff_ffff_ffffu128) by (nonlinear_arith)
        requires
            0 <= i,
    ;
}

} // verus!
