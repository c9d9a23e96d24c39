//! Instances: the usage that a tenant has made of the service.

use vstd::prelude::*;
use crate::config::make_config;
use crate::error::{text_result, ApiError};
use crate::operation::Operation;
use crate::reply::{pass_through, passed_through, Reply, Style};
use crate::request::{planned, Parameters, ParametersModel, Request};

verus! {

/// Describes the request for the usage of a tenant.
pub fn get_usage_request(base_url: &str, token: &str, crn: &str) -> (request: Request)
    ensures
        request.well_formed(),
        request@ == planned(Operation::GetUsage, base_url@, token@, crn@, ParametersModel::Plain),
{
    Request::new(Operation::GetUsage, make_config(base_url, token, crn), Parameters::Plain)
}

/// Returns the usage of a tenant as pretty-printed JSON.
pub fn get_usage(reply: Reply) -> (outcome: Result<String, ApiError>)
    ensures
        text_result(outcome) == passed_through(Operation::GetUsage, Style::Pretty, reply@),
{
    pass_through(Operation::GetUsage, Style::Pretty, reply)
}

} // verus!
