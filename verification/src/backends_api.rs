//! The listing of backends for callers that hold a bearer token instead of an
//! API key. The service's earlier revision is addressed, which reports the
//! backends under `backends` and always does so.

use vstd::prelude::*;
use crate::config::{bearer_configuration, make_bearer_config};
use crate::error::{names_result, ApiError};
use crate::listing::{list_names, listed};
use crate::operation::{default_version, Operation};
use crate::reply::Reply;
use crate::request::{Parameters, ParametersModel, Request, RequestModel};

verus! {

/// Describes the request that lists the backends of a tenant, authenticated
/// with a bearer token.
pub fn list_backends_py_request(base_url: &str, token: &str, crn: &str) -> (request: Request)
    ensures
        request.well_formed(),
        request@ == (RequestModel {
            operation: Operation::ListBackendsBearer,
            config: bearer_configuration(base_url@, token@),
            api_version: default_version(Operation::ListBackendsBearer),
            parameters: ParametersModel::Tenant { crn: crn@ },
        }),
{
    Request::new(
        Operation::ListBackendsBearer,
        make_bearer_config(base_url, token),
        Parameters::Tenant { crn: crn.to_owned() },
    )
}

/// Returns the names of the backends that the service reported under
/// `backends`, in the order received.
pub fn list_backends_py(reply: Reply) -> (outcome: Result<Vec<String>, ApiError>)
    ensures
        names_result(outcome) == listed(Operation::ListBackendsBearer, "backends"@, true, reply@),
{
    list_names(Operation::ListBackendsBearer, "backends", true, reply)
}

} // verus!
