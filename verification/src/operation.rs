//! The remote operations and the version marker that each one sends.

use vstd::prelude::*;

verus! {

/// One remote operation of the service, in one binding variant.
#[derive(Clone, Copy, Debug, PartialEq, Eq, Structural)]
pub enum Operation {
    /// List the backends, authenticated with an API key.
    ListBackends,
    /// List the backends, authenticated with a bearer token.
    ListBackendsBearer,
    GetBackendStatus,
    GetBackendConfiguration,
    GetBackendProperties,
    GetUsage,
    CreateSession,
    DeleteSession,
}

/// The version marker that an operation sends unless the caller chooses another.
pub open spec fn default_version(operation: Operation) -> Seq<char> {
    match operation {
        Operation::ListBackendsBearer | Operation::GetBackendProperties => "2025-01-01"@,
        _ => "2025-05-01"@,
    }
}

impl Operation {
    /// The date-coded tag that selects the revision of the remote contract this
    /// operation was written against.
    pub fn default_api_version(self) -> (version: &'static str)
        ensures
            version@ == default_version(self),
    {
        match self {
            Operation::ListBackendsBearer | Operation::GetBackendProperties => "2025-01-01",
            _ => "2025-05-01",
        }
    }
}

} // verus!
