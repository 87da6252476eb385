//! The decision half of the external API controller: which caller-facing
//! response each combination of lookup, parse and orchestration outcomes
//! produces. The HTTP plumbing itself lives outside the library; it hands
//! in plain outcome values and sends back exactly the reply computed
//! here, so internal error detail never leaks verbatim to callers.

use vstd::prelude::*;
use crate::orchestrator::OrchestratorError;

verus! {

/// Failures of the controller layer. Backend detail is carried as plain
/// text for the operator log, never returned verbatim to callers.
#[derive(Debug)]
pub enum InstanceError {
    InstanceNotFound,
    OutOfRange,
    Etcd(String),
    Grpc(String),
    SerdeError(String),
    GenerateIp(String),
}

impl InstanceError {
    /// Operator-facing description of the failure.
    pub fn describe(&self) -> (r: String)
        ensures
            match self {
                InstanceError::InstanceNotFound => r@ == "Instance not found"@,
                InstanceError::OutOfRange => r@ == "Instance out of range"@,
                InstanceError::Etcd(e) => r@ == "Etcd error: "@ + e@,
                InstanceError::Grpc(e) => r@ == "Grpc error: "@ + e@,
                InstanceError::SerdeError(e) => r@ == "Serde error: "@ + e@,
                InstanceError::GenerateIp(e) => r@ == "Generate ip error: "@ + e@,
            },
    {
        match self {
            InstanceError::InstanceNotFound => String::from_str("Instance not found"),
            InstanceError::OutOfRange => String::from_str("Instance out of range"),
            InstanceError::Etcd(e) => String::from_str("Etcd error: ").concat(e.as_str()),
            InstanceError::Grpc(e) => String::from_str("Grpc error: ").concat(e.as_str()),
            InstanceError::SerdeError(e) => String::from_str("Serde error: ").concat(e.as_str()),
            InstanceError::GenerateIp(e) => String::from_str("Generate ip error: ").concat(
                e.as_str(),
            ),
        }
    }
}

/// Body of a create-instance request: which workload to materialize.
pub struct InstanceDTO {
    pub workload_name: String,
}

/// Window of a paginated listing.
#[derive(Clone, Copy, Debug, PartialEq, Eq, Structural)]
pub struct Pagination {
    pub limit: u32,
    pub offset: u32,
}

/// A caller-facing reply: a status code and an opaque body.
pub struct HttpReply {
    pub code: u16,
    pub body: String,
}

/// The status code a caller sees for an orchestration failure: missing
/// things are the caller's error, capacity and infrastructure troubles
/// are the service's — never the internal detail string.
pub open spec fn spec_status_code_for(e: OrchestratorError) -> u16 {
    match e {
        OrchestratorError::NotFound => 404,
        OrchestratorError::UnknownNode => 404,
        OrchestratorError::NoCapacity => 503,
        OrchestratorError::TransportError => 502,
        OrchestratorError::Internal => 500,
        OrchestratorError::ConfigError => 500,
    }
}

/// Executable twin of [`spec_status_code_for`].
pub fn status_code_for(e: &OrchestratorError) -> (r: u16)
    ensures
        r == spec_status_code_for(*e),
{
    match e {
        OrchestratorError::NotFound => 404,
        OrchestratorError::UnknownNode => 404,
        OrchestratorError::NoCapacity => 503,
        OrchestratorError::TransportError => 502,
        OrchestratorError::Internal => 500,
        OrchestratorError::ConfigError => 500,
    }
}

/// Reply to a create-and-start request: an unknown workload is the
/// caller's 404; a workload document that does not parse, or a start
/// that fails, is an internal 500; success accepts the instance with 201
/// while it keeps starting in the background.
pub fn put_instance_response(workload_found: bool, workload_parses: bool, start_ok: bool) -> (r:
    HttpReply)
    ensures
        !workload_found ==> r.code == 404 && r.body@ == "Workload not found"@,
        workload_found && !workload_parses ==> r.code == 500 && r.body@
            == "Internal Server Error"@,
        workload_found && workload_parses && !start_ok ==> r.code == 500 && r.body@
            == "Internal Server Error"@,
        workload_found && workload_parses && start_ok ==> r.code == 201 && r.body@
            == "Instance creating and starting..."@,
{
    if !workload_found {
        HttpReply { code: 404, body: String::from_str("Workload not found") }
    } else if !workload_parses {
        HttpReply { code: 500, body: String::from_str("Internal Server Error") }
    } else if !start_ok {
        HttpReply { code: 500, body: String::from_str("Internal Server Error") }
    } else {
        HttpReply { code: 201, body: String::from_str("Instance creating and starting...") }
    }
}

/// Reply to a delete request: unknown workload or unknown instance are
/// the caller's 404s, a failing removal is an internal 500, success is a
/// plain 200.
pub fn delete_instance_response(workload_found: bool, instance_found: bool, delete_ok: bool) -> (r:
    HttpReply)
    ensures
        !workload_found ==> r.code == 404 && r.body@ == "Workload not found"@,
        workload_found && !instance_found ==> r.code == 404 && r.body@ == "Instance not found"@,
        workload_found && instance_found && !delete_ok ==> r.code == 500 && r.body@
            == "Internal Server Error"@,
        workload_found && instance_found && delete_ok ==> r.code == 200 && r.body@
            == "Instance deleted"@,
{
    if !workload_found {
        HttpReply { code: 404, body: String::from_str("Workload not found") }
    } else if !instance_found {
        HttpReply { code: 404, body: String::from_str("Instance not found") }
    } else if !delete_ok {
        HttpReply { code: 500, body: String::from_str("Internal Server Error") }
    } else {
        HttpReply { code: 200, body: String::from_str("Instance deleted") }
    }
}

/// Reply to a patch request, which removes the old instance and starts a
/// fresh one: the lookups fail as the caller's 404s, either half failing
/// is an internal 500, success accepts the replacement with 201.
pub fn patch_instance_response(
    workload_found: bool,
    instance_found: bool,
    delete_ok: bool,
    start_ok: bool,
) -> (r: HttpReply)
    ensures
        !workload_found ==> r.code == 404 && r.body@ == "Workload not found"@,
        workload_found && !instance_found ==> r.code == 404 && r.body@ == "Instance not found"@,
        workload_found && instance_found && !delete_ok ==> r.code == 500 && r.body@
            == "Internal Server Error"@,
        workload_found && instance_found && delete_ok && !start_ok ==> r.code == 500 && r.body@
            == "Internal Server Error"@,
        workload_found && instance_found && delete_ok && start_ok ==> r.code == 201 && r.body@
            == "Instance creating and starting..."@,
{
    if !workload_found {
        HttpReply { code: 404, body: String::from_str("Workload not found") }
    } else if !instance_found {
        HttpReply { code: 404, body: String::from_str("Instance not found") }
    } else if !delete_ok {
        HttpReply { code: 500, body: String::from_str("Internal Server Error") }
    } else if !start_ok {
        HttpReply { code: 500, body: String::from_str("Internal Server Error") }
    } else {
        HttpReply { code: 201, body: String::from_str("Instance creating and starting...") }
    }
}

/// Reply to a read request: a missing workload or a missing instance is
/// the caller's 404; a found instance whose record could not be rendered
/// is an internal 500; otherwise the rendered record itself is the body.
pub fn get_instance_response(
    workload_found: bool,
    instance_found: bool,
    rendered: Option<String>,
) -> (r: HttpReply)
    ensures
        !workload_found ==> r.code == 404 && r.body@ == "Instance not found"@,
        workload_found && !instance_found ==> r.code == 404 && r.body@ == "Instance not found"@,
        workload_found && instance_found ==> match rendered {
            Some(body) => r.code == 200 && r.body == body,
            None => r.code == 500 && r.body@ == "Internal Server Error"@,
        },
{
    if !workload_found || !instance_found {
        HttpReply { code: 404, body: String::from_str("Instance not found") }
    } else {
        match rendered {
            Some(body) => HttpReply { code: 200, body },
            None => HttpReply { code: 500, body: String::from_str("Internal Server Error") },
        }
    }
}

} // verus!
