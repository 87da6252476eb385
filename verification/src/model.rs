//! Data model shared by the Scheduler and the Node Agent: resource
//! triples, ports, addresses, and the lifecycle states of instances
//! and nodes.

use vstd::prelude::*;

verus! {

/// Declared or measured quantity of the three tracked resources.
#[derive(Clone, Copy, Debug, PartialEq, Eq, Structural)]
pub struct ResourceSummary {
    pub cpu: u64,
    pub memory: u64,
    pub disk: u64,
}

impl ResourceSummary {
    /// The all-zero summary, used for a node's usage before its first report.
    pub fn zero() -> (r: ResourceSummary)
        ensures
            r.cpu == 0 && r.memory == 0 && r.disk == 0,
    {
        ResourceSummary { cpu: 0, memory: 0, disk: 0 }
    }
}

/// Declared capacity (`limit`) paired with the latest observed
/// consumption (`usage`); either half may be absent on the wire.
#[derive(Clone, Copy, Debug)]
pub struct Resource {
    pub limit: Option<ResourceSummary>,
    pub usage: Option<ResourceSummary>,
}

/// A published port mapping of an instance.
#[derive(Clone, Copy, Debug, PartialEq, Eq, Structural)]
pub struct Port {
    pub source: i32,
    pub dest: i32,
}

/// An IPv4 address as four plain octets.
#[derive(Clone, Copy, Debug, PartialEq, Eq, Structural)]
pub struct IpAddress {
    pub a: u8,
    pub b: u8,
    pub c: u8,
    pub d: u8,
}

/// Lifecycle state of a workload instance.
#[derive(Clone, Copy, Debug, PartialEq, Eq, Structural)]
pub enum InstanceState {
    Scheduling,
    Running,
    Stopped,
    Failed,
}

/// Execution flavour of an instance; only containers exist today.
#[derive(Clone, Copy, Debug, PartialEq, Eq, Structural)]
pub enum InstanceKind {
    Container,
}

/// Connectivity state of a registered node.
#[derive(Clone, Copy, Debug, PartialEq, Eq, Structural)]
pub enum NodeState {
    Registered,
    Running,
    Failed,
}

/// The declared resource limit of an instance, or zero where none was
/// declared: what placement charges against a node's capacity.
pub open spec fn spec_limit_of(resource: Option<Resource>) -> ResourceSummary {
    match resource {
        Some(r) => match r.limit {
            Some(l) => l,
            None => ResourceSummary { cpu: 0, memory: 0, disk: 0 },
        },
        None => ResourceSummary { cpu: 0, memory: 0, disk: 0 },
    }
}

/// Executable twin of [`spec_limit_of`].
pub fn limit_of(resource: &Option<Resource>) -> (r: ResourceSummary)
    ensures
        r == spec_limit_of(*resource),
{
    match resource {
        Some(res) => match res.limit {
            Some(l) => l,
            None => ResourceSummary { cpu: 0, memory: 0, disk: 0 },
        },
        None => ResourceSummary { cpu: 0, memory: 0, disk: 0 },
    }
}

/// One materialization of a workload, placed on exactly one node.
/// `resource.limit` is fixed at creation from the workload's declaration;
/// `resource.usage` is filled only from reports by the hosting node.
#[derive(Clone, Debug)]
pub struct Instance {
    pub id: String,
    pub name: String,
    pub kind: InstanceKind,
    pub state: InstanceState,
    pub status_description: String,
    pub num_restarts: i32,
    pub uri: String,
    pub environment: Vec<String>,
    pub resource: Option<Resource>,
    pub ports: Vec<Port>,
    pub ip: IpAddress,
    pub namespace: String,
}

/// Mathematical image of an [`Instance`]: strings as character sequences,
/// vectors as sequences.
#[verifier::ext_equal]
pub struct InstanceView {
    pub id: Seq<char>,
    pub name: Seq<char>,
    pub kind: InstanceKind,
    pub state: InstanceState,
    pub status_description: Seq<char>,
    pub num_restarts: i32,
    pub uri: Seq<char>,
    pub environment: Seq<Seq<char>>,
    pub resource: Option<Resource>,
    pub ports: Seq<Port>,
    pub ip: IpAddress,
    pub namespace: Seq<char>,
}

impl View for Instance {
    type V = InstanceView;

    open spec fn view(&self) -> InstanceView {
        InstanceView {
            id: self.id@,
            name: self.name@,
            kind: self.kind,
            state: self.state,
            status_description: self.status_description@,
            num_restarts: self.num_restarts,
            uri: self.uri@,
            environment: self.environment.deep_view(),
            resource: self.resource,
            ports: self.ports@,
            ip: self.ip,
            namespace: self.namespace@,
        }
    }
}

/// A workload definition, as handed over by the external store: the
/// declarative description from which instances are materialized.
#[derive(Clone, Debug)]
pub struct Workload {
    pub id: String,
    pub name: String,
    pub uri: String,
    pub environment: Vec<String>,
    pub namespace: String,
    pub resources: ResourceSummary,
    pub ports: Vec<Port>,
}

/// Whether a character is one of the sixty-two ASCII alphanumerics.
pub open spec fn is_alphanumeric_char(c: char) -> bool {
    ('a' <= c && c <= 'z') || ('A' <= c && c <= 'Z') || ('0' <= c && c <= '9')
}

/// Relies on rand's `Alphanumeric` distribution sampled from `thread_rng`:
/// every sampled byte is one of the sixty-two ASCII alphanumerics, and
/// exactly `len` of them are taken. Nothing else is assumed of the draw.
#[verifier::external_body]
fn random_suffix(len: usize) -> (r: String)
    ensures
        r@.len() == len as nat,
        forall|i: int| 0 <= i < r@.len() ==> is_alphanumeric_char(#[trigger] r@[i]),
{
    rand::Rng::sample_iter(rand::thread_rng(), &rand::distributions::Alphanumeric)
        .take(len)
        .map(char::from)
        .collect()
}

/// Length of the random disambiguation suffix appended to instance ids,
/// so that one workload can spawn many instances without collisions.
pub const SUFFIX_LENGTH: usize = 5;

/// Builds the instance a workload materializes into, given the
/// disambiguation suffix: identifiers are the workload's, extended by
/// `-` and the suffix; the declared resources become the instance's
/// fixed limit; usage starts unreported; the lifecycle starts at
/// `Scheduling`.
pub fn instance_with_suffix(workload: Workload, suffix: &String) -> (r: Instance)
    ensures
        r.id@ == workload.id@ + "-"@ + suffix@,
        r.name@ == workload.name@ + "-"@ + suffix@,
        r.kind == InstanceKind::Container,
        r.state == InstanceState::Scheduling,
        r.status_description@ =~= Seq::<char>::empty(),
        r.num_restarts == 0,
        r.uri == workload.uri,
        r.environment == workload.environment,
        r.namespace == workload.namespace,
        r.resource == (Some(Resource { limit: Some(workload.resources), usage: None::<ResourceSummary> })),
        r.ports == workload.ports,
        r.ip == (IpAddress { a: 10, b: 0, c: 0, d: 1 }),
{
    let id = workload.id.concat("-").concat(suffix.as_str());
    let name = workload.name.concat("-").concat(suffix.as_str());
    Instance {
        id,
        name,
        kind: InstanceKind::Container,
        state: InstanceState::Scheduling,
        status_description: String::new(),
        num_restarts: 0,
        uri: workload.uri,
        environment: workload.environment,
        resource: Some(Resource { limit: Some(workload.resources), usage: None }),
        ports: workload.ports,
        ip: IpAddress { a: 10, b: 0, c: 0, d: 1 },
        namespace: workload.namespace,
    }
}

/// Materializes a workload into a fresh instance, drawing the random
/// suffix that keeps concurrently created instances of one workload
/// apart. Every field but the two suffixed identifiers is determined by
/// the workload; the identifiers extend the workload's by a dash and
/// five alphanumeric characters.
pub fn instance_from_workload(workload: Workload) -> (r: Instance)
    ensures
        exists|sfx: Seq<char>|
            {
                &&& sfx.len() == SUFFIX_LENGTH as nat
                &&& (forall|i: int| 0 <= i < sfx.len() ==> is_alphanumeric_char(#[trigger] sfx[i]))
                &&& r.id@ == workload.id@ + "-"@ + sfx
                &&& r.name@ == workload.name@ + "-"@ + sfx
            },
        r.kind == InstanceKind::Container,
        r.state == InstanceState::Scheduling,
        r.status_description@ =~= Seq::<char>::empty(),
        r.num_restarts == 0,
        r.uri == workload.uri,
        r.environment == workload.environment,
        r.namespace == workload.namespace,
        r.resource == (Some(Resource { limit: Some(workload.resources), usage: None::<ResourceSummary> })),
        r.ports == workload.ports,
{
    let suffix = random_suffix(SUFFIX_LENGTH);
    instance_with_suffix(workload, &suffix)
}

/// The resource record a status report leaves behind: the declared
/// limit is fixed at creation and stays; only the observed usage follows
/// the report — the newest report wins, nothing is merged.
pub open spec fn spec_resource_after_report(
    recorded: Option<Resource>,
    reported: Option<Resource>,
) -> Option<Resource> {
    match recorded {
        Some(r) => Some(
            Resource {
                limit: r.limit,
                usage: match reported {
                    Some(nr) => nr.usage,
                    None => None,
                },
            },
        ),
        None => None,
    }
}

/// How a node-originated status report lands in the record of an
/// instance: the reported state (an unknown code falls back to
/// `Scheduling`), the reported description and the reported usage
/// replace the old ones; the creation-time resource limit and the
/// identity fields stay untouched.
impl Instance {
    pub fn update_instance(&mut self, instance_status: crate::messages::InstanceStatus)
        ensures
            final(self).state == crate::messages::spec_state_or_default(instance_status.status),
            final(self).status_description == instance_status.status_description,
            final(self).resource == spec_resource_after_report(
                old(self).resource,
                instance_status.resource,
            ),
            final(self).id == old(self).id,
            final(self).name == old(self).name,
            final(self).kind == old(self).kind,
            final(self).num_restarts == old(self).num_restarts,
            final(self).uri == old(self).uri,
            final(self).environment == old(self).environment,
            final(self).ports == old(self).ports,
            final(self).ip == old(self).ip,
            final(self).namespace == old(self).namespace,
    {
        self.state = crate::messages::state_or_default(instance_status.status);
        self.status_description = instance_status.status_description;
        self.resource = match self.resource {
            Some(r) => Some(
                Resource {
                    limit: r.limit,
                    usage: match instance_status.resource {
                        Some(nr) => nr.usage,
                        None => None,
                    },
                },
            ),
            None => None,
        };
    }
}

} // verus!
