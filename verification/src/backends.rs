//! Backends: the named compute resources of the service. They are listed by
//! name, and their status, configuration and properties are handed on as JSON.

use vstd::prelude::*;
use crate::config::make_config;
use crate::error::{names_result, text_result, ApiError};
use crate::listing::{list_names, listed};
use crate::operation::Operation;
use crate::reply::{pass_through, passed_through, Reply, Style};
use crate::request::{planned, Parameters, ParametersModel, Request};

verus! {

/// Describes the request that lists the backends of a tenant.
pub fn list_backends_request(base_url: &str, token: &str, crn: &str) -> (request: Request)
    ensures
        request.well_formed(),
        request@ == planned(
            Operation::ListBackends,
            base_url@,
            token@,
            crn@,
            ParametersModel::Tenant { crn: crn@ },
        ),
{
    Request::new(
        Operation::ListBackends,
        make_config(base_url, token, crn),
        Parameters::Tenant { crn: crn.to_owned() },
    )
}

/// Returns the names of the backends that the service reported under
/// `devices`, in the order received; none if it reported none.
pub fn list_backends(reply: Reply) -> (outcome: Result<Vec<String>, ApiError>)
    ensures
        names_result(outcome) == listed(Operation::ListBackends, "devices"@, false, reply@),
{
    list_names(Operation::ListBackends, "devices", false, reply)
}

/// Describes the request for the status of a backend.
pub fn get_backend_status_request(
    base_url: &str,
    token: &str,
    backend: &str,
    crn: &str,
) -> (request: Request)
    ensures
        request.well_formed(),
        request@ == planned(
            Operation::GetBackendStatus,
            base_url@,
            token@,
            crn@,
            ParametersModel::Backend { backend: backend@, crn: crn@ },
        ),
{
    Request::new(
        Operation::GetBackendStatus,
        make_config(base_url, token, crn),
        Parameters::Backend { backend: backend.to_owned(), crn: crn.to_owned() },
    )
}

/// Returns the status of a backend as compact JSON.
pub fn get_backend_status(reply: Reply) -> (outcome: Result<String, ApiError>)
    ensures
        text_result(outcome) == passed_through(
            Operation::GetBackendStatus,
            Style::Compact,
            reply@,
        ),
{
    pass_through(Operation::GetBackendStatus, Style::Compact, reply)
}

/// Describes the request for the configuration of a backend.
pub fn get_backend_configuration_request(
    base_url: &str,
    token: &str,
    crn: &str,
    backend: &str,
) -> (request: Request)
    ensures
        request.well_formed(),
        request@ == planned(
            Operation::GetBackendConfiguration,
            base_url@,
            token@,
            crn@,
            ParametersModel::Backend { backend: backend@, crn: crn@ },
        ),
{
    Request::new(
        Operation::GetBackendConfiguration,
        make_config(base_url, token, crn),
        Parameters::Backend { backend: backend.to_owned(), crn: crn.to_owned() },
    )
}

/// Returns the configuration of a backend as compact JSON.
pub fn get_backend_configuration(reply: Reply) -> (outcome: Result<String, ApiError>)
    ensures
        text_result(outcome) == passed_through(
            Operation::GetBackendConfiguration,
            Style::Compact,
            reply@,
        ),
{
    pass_through(Operation::GetBackendConfiguration, Style::Compact, reply)
}

/// Describes the request for the properties of a backend. No filter is set.
pub fn get_backend_properties_request(
    base_url: &str,
    token: &str,
    crn: &str,
    backend: &str,
) -> (request: Request)
    ensures
        request.well_formed(),
        request@ == planned(
            Operation::GetBackendProperties,
            base_url@,
            token@,
            crn@,
            ParametersModel::BackendProperties { backend: backend@, crn: crn@, filter: None },
        ),
{
    Request::new(
        Operation::GetBackendProperties,
        make_config(base_url, token, crn),
        Parameters::BackendProperties {
            backend: backend.to_owned(),
            crn: crn.to_owned(),
            filter: None,
        },
    )
}

/// Returns the properties of a backend as compact JSON.
pub fn get_backend_properties(reply: Reply) -> (outcome: Result<String, ApiError>)
    ensures
        text_result(outcome) == passed_through(
            Operation::GetBackendProperties,
            Style::Compact,
            reply@,
        ),
{
    pass_through(Operation::GetBackendProperties, Style::Compact, reply)
}

} // verus!
