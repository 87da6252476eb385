//! The instance shape that crosses the boundary between the Scheduler
//! and a Node Agent, and the conversions to and from the registry's own
//! instance record. Lifecycle states and kinds travel as integer codes;
//! the fields the wire carries survive the crossing exactly.

use vstd::prelude::*;
use crate::model::{Instance, InstanceView, InstanceKind, InstanceState, IpAddress, Port, Resource};
use crate::messages::{spec_state_code, state_code, spec_state_or_default, state_or_default};

verus! {

/// A port mapping as the boundary carries it.
#[derive(Clone, Copy, Debug, PartialEq, Eq, Structural)]
pub struct WirePort {
    pub source: i32,
    pub destination: i32,
}

/// An instance as the boundary carries it: identity, coded kind and
/// state, environment, address, ports, resources and image location.
/// Scheduler-internal bookkeeping (restart count, namespace, the status
/// description) stays home.
#[derive(Clone, Debug)]
pub struct WireInstance {
    pub id: String,
    pub name: String,
    pub kind: i32,
    pub status: i32,
    pub environment: Vec<String>,
    pub ip: IpAddress,
    pub ports: Vec<WirePort>,
    pub resource: Option<Resource>,
    pub uri: String,
}

/// Mathematical image of a [`WireInstance`].
#[verifier::ext_equal]
pub struct WireInstanceView {
    pub id: Seq<char>,
    pub name: Seq<char>,
    pub kind: i32,
    pub status: i32,
    pub environment: Seq<Seq<char>>,
    pub ip: IpAddress,
    pub ports: Seq<WirePort>,
    pub resource: Option<Resource>,
    pub uri: Seq<char>,
}

impl View for WireInstance {
    type V = WireInstanceView;

    open spec fn view(&self) -> WireInstanceView {
        WireInstanceView {
            id: self.id@,
            name: self.name@,
            kind: self.kind,
            status: self.status,
            environment: self.environment.deep_view(),
            ip: self.ip,
            ports: self.ports@,
            resource: self.resource,
            uri: self.uri@,
        }
    }
}

/// Wire code of an instance kind.
pub open spec fn spec_kind_code(k: InstanceKind) -> i32 {
    match k {
        InstanceKind::Container => 0,
    }
}

/// Executable twin of [`spec_kind_code`].
pub fn kind_code(k: InstanceKind) -> (r: i32)
    ensures
        r == spec_kind_code(k),
{
    match k {
        InstanceKind::Container => 0,
    }
}

/// Decoding a kind code: every code denotes the container kind, the only
/// kind there is.
pub open spec fn spec_kind_or_default(c: i32) -> InstanceKind {
    InstanceKind::Container
}

/// Executable twin of [`spec_kind_or_default`].
pub fn kind_or_default(c: i32) -> (r: InstanceKind)
    ensures
        r == spec_kind_or_default(c),
{
    InstanceKind::Container
}

/// What encoding an instance puts on the wire.
pub open spec fn spec_to_wire(i: InstanceView) -> WireInstanceView {
    WireInstanceView {
        id: i.id,
        name: i.name,
        kind: spec_kind_code(i.kind),
        status: spec_state_code(i.state),
        environment: i.environment,
        ip: i.ip,
        ports: i.ports.map_values(|p: Port| WirePort { source: p.source, destination: p.dest }),
        resource: i.resource,
        uri: i.uri,
    }
}

/// What decoding a wire instance reconstructs: the carried fields as
/// they arrived — an unknown state code falls back to `Scheduling` — and
/// rest defaults for what the wire does not carry.
pub open spec fn spec_from_wire(w: WireInstanceView) -> InstanceView {
    InstanceView {
        id: w.id,
        name: w.name,
        kind: spec_kind_or_default(w.kind),
        state: spec_state_or_default(w.status),
        status_description: Seq::<char>::empty(),
        num_restarts: 0,
        uri: w.uri,
        environment: w.environment,
        resource: w.resource,
        ports: w.ports.map_values(|p: WirePort| Port { source: p.source, dest: p.destination }),
        ip: w.ip,
        namespace: Seq::<char>::empty(),
    }
}

/// A view-preserving copy of a string vector.
fn clone_strings(v: &Vec<String>) -> (r: Vec<String>)
    ensures
        r@ == v@,
{
    let mut r: Vec<String> = Vec::new();
    let mut i: usize = 0;
    while i < v.len()
        invariant
            i <= v@.len(),
            r@ == v@.take(i as int),
        decreases v@.len() - i,
    {
        r.push(v[i].clone());
        proof {
            assert(r@ =~= v@.take(i + 1));
        }
        i += 1;
    }
    proof {
        assert(v@.take(v@.len() as int) =~= v@);
    }
    r
}

/// Encodes an instance for the crossing to a Node Agent.
pub fn to_wire(i: &Instance) -> (r: WireInstance)
    ensures
        r@ == spec_to_wire(i@),
{
    let mut ports: Vec<WirePort> = Vec::new();
    let mut k: usize = 0;
    while k < i.ports.len()
        invariant
            k <= i.ports@.len(),
            ports@ == i.ports@.take(k as int).map_values(
                |p: Port| WirePort { source: p.source, destination: p.dest },
            ),
        decreases i.ports@.len() - k,
    {
        let p = i.ports[k];
        ports.push(WirePort { source: p.source, destination: p.dest });
        proof {
            assert(ports@ =~= i.ports@.take(k + 1).map_values(
                |p: Port| WirePort { source: p.source, destination: p.dest },
            ));
        }
        k += 1;
    }
    proof {
        assert(i.ports@.take(i.ports@.len() as int) =~= i.ports@);
    }
    let r = WireInstance {
        id: i.id.clone(),
        name: i.name.clone(),
        kind: kind_code(i.kind),
        status: state_code(i.state),
        environment: clone_strings(&i.environment),
        ip: i.ip,
        ports,
        resource: i.resource,
        uri: i.uri.clone(),
    };
    proof {
        assert(r@ =~~= spec_to_wire(i@));
    }
    r
}

/// Decodes an instance arriving from the boundary into a registry
/// record: carried fields as they arrived, rest defaults for the rest.
pub fn from_wire(w: WireInstance) -> (r: Instance)
    ensures
        r@ == spec_from_wire(w@),
{
    let mut ports: Vec<Port> = Vec::new();
    let mut k: usize = 0;
    while k < w.ports.len()
        invariant
            k <= w.ports@.len(),
            ports@ == w.ports@.take(k as int).map_values(
                |p: WirePort| Port { source: p.source, dest: p.destination },
            ),
        decreases w.ports@.len() - k,
    {
        let p = w.ports[k];
        ports.push(Port { source: p.source, dest: p.destination });
        proof {
            assert(ports@ =~= w.ports@.take(k + 1).map_values(
                |p: WirePort| Port { source: p.source, dest: p.destination },
            ));
        }
        k += 1;
    }
    proof {
        assert(w.ports@.take(w.ports@.len() as int) =~= w.ports@);
    }
    let r = Instance {
        id: w.id,
        name: w.name,
        kind: kind_or_default(w.kind),
        state: state_or_default(w.status),
        status_description: String::new(),
        num_restarts: 0,
        uri: w.uri,
        environment: w.environment,
        resource: w.resource,
        ports,
        ip: w.ip,
        namespace: String::new(),
    };
    proof {
        assert(r@ =~~= spec_from_wire(w@));
    }
    r
}

/// Round-trip law: an instance encoded at one boundary and decoded at
/// the other preserves every carried field exactly — identity, kind,
/// lifecycle state, environment, address, every port, the whole resource
/// record (declared limit and observed usage alike) and the image
/// location. Only the fields the wire does not carry come back as rest
/// defaults. Status reports cross the boundary in one shape and need no
/// conversion at all.
pub proof fn lemma_wire_round_trip(i: InstanceView)
    ensures
        spec_from_wire(spec_to_wire(i)).id == i.id,
        spec_from_wire(spec_to_wire(i)).name == i.name,
        spec_from_wire(spec_to_wire(i)).kind == i.kind,
        spec_from_wire(spec_to_wire(i)).state == i.state,
        spec_from_wire(spec_to_wire(i)).environment == i.environment,
        spec_from_wire(spec_to_wire(i)).ip == i.ip,
        spec_from_wire(spec_to_wire(i)).ports == i.ports,
        spec_from_wire(spec_to_wire(i)).resource == i.resource,
        spec_from_wire(spec_to_wire(i)).uri == i.uri,
{
    crate::messages::lemma_state_code_round_trip(i.state);
    assert(spec_from_wire(spec_to_wire(i)).ports =~= i.ports);
}

} // verus!
