//! The description of the one request that a call sends.

use vstd::prelude::*;
use crate::config::{api_key_configuration, Configuration, ConfigurationModel};
use crate::operation::{default_version, Operation};
use crate::sessions::{CreateSessionRequest, SessionModel};
use crate::text::{optional_text, same_text};

verus! {

/// What an operation sends besides the configuration and the version marker.
#[derive(Clone, Debug, PartialEq, Eq)]
pub enum Parameters {
    /// Nothing more.
    Plain,
    /// The tenant, passed once more beside the configuration.
    Tenant { crn: String },
    /// A backend and the tenant.
    Backend { backend: String, crn: String },
    /// A backend, the tenant, and the filter on the properties to report.
    BackendProperties { backend: String, crn: String, filter: Option<String> },
    /// The session to create.
    NewSession { session: CreateSessionRequest },
    /// The session to delete and the tenant.
    Session { id: String, crn: String },
}

/// What `Parameters` stand for in contracts.
pub enum ParametersModel {
    Plain,
    Tenant { crn: Seq<char> },
    Backend { backend: Seq<char>, crn: Seq<char> },
    BackendProperties { backend: Seq<char>, crn: Seq<char>, filter: Option<Seq<char>> },
    NewSession { session: SessionModel },
    Session { id: Seq<char>, crn: Seq<char> },
}

impl View for Parameters {
    type V = ParametersModel;

    open spec fn view(&self) -> ParametersModel {
        match *self {
            Parameters::Plain => ParametersModel::Plain,
            Parameters::Tenant { crn } => ParametersModel::Tenant { crn: crn@ },
            Parameters::Backend { backend, crn } => ParametersModel::Backend {
                backend: backend@,
                crn: crn@,
            },
            Parameters::BackendProperties {
                backend,
                crn,
                filter,
            } => ParametersModel::BackendProperties {
                backend: backend@,
                crn: crn@,
                filter: optional_text(filter),
            },
            Parameters::NewSession { session } => ParametersModel::NewSession { session: session@ },
            Parameters::Session { id, crn } => ParametersModel::Session { id: id@, crn: crn@ },
        }
    }
}

/// Whether the parameters are of the kind that the operation takes.
pub open spec fn fits(operation: Operation, parameters: ParametersModel) -> bool {
    match operation {
        Operation::ListBackends | Operation::ListBackendsBearer => parameters is Tenant,
        Operation::GetBackendStatus | Operation::GetBackendConfiguration => parameters is Backend,
        Operation::GetBackendProperties => parameters is BackendProperties,
        Operation::GetUsage => parameters is Plain,
        Operation::CreateSession => parameters is NewSession,
        Operation::DeleteSession => parameters is Session,
    }
}

/// The tenant that the parameters name, if they name one.
pub open spec fn tenant(parameters: ParametersModel) -> Option<Seq<char>> {
    match parameters {
        ParametersModel::Tenant { crn } => Some(crn),
        ParametersModel::Backend { crn, .. } => Some(crn),
        ParametersModel::BackendProperties { crn, .. } => Some(crn),
        ParametersModel::Session { crn, .. } => Some(crn),
        _ => None,
    }
}

/// Whether the configuration and the parameters speak of one tenant, where
/// both name one.
pub open spec fn same_tenant(config: ConfigurationModel, parameters: ParametersModel) -> bool {
    match (config.crn, tenant(parameters)) {
        (Some(configured), Some(passed)) => configured == passed,
        _ => true,
    }
}

impl Parameters {
    /// The tenant that the parameters name, if they name one.
    pub fn tenant(&self) -> (crn: Option<&str>)
        ensures
            match crn {
                Some(inner) => tenant(self@) == Some(inner@),
                None => tenant(self@) is None,
            },
    {
        match self {
            Parameters::Tenant { crn } => Some(crn.as_str()),
            Parameters::Backend { crn, .. } => Some(crn.as_str()),
            Parameters::BackendProperties { crn, .. } => Some(crn.as_str()),
            Parameters::Session { crn, .. } => Some(crn.as_str()),
            _ => None,
        }
    }

    /// Tells whether the parameters are of the kind that the operation takes.
    pub fn fit(&self, operation: Operation) -> (answer: bool)
        ensures
            answer == fits(operation, self@),
    {
        match operation {
            Operation::ListBackends | Operation::ListBackendsBearer => match self {
                Parameters::Tenant { .. } => true,
                _ => false,
            },
            Operation::GetBackendStatus | Operation::GetBackendConfiguration => match self {
                Parameters::Backend { .. } => true,
                _ => false,
            },
            Operation::GetBackendProperties => match self {
                Parameters::BackendProperties { .. } => true,
                _ => false,
            },
            Operation::GetUsage => match self {
                Parameters::Plain => true,
                _ => false,
            },
            Operation::CreateSession => match self {
                Parameters::NewSession { .. } => true,
                _ => false,
            },
            Operation::DeleteSession => match self {
                Parameters::Session { .. } => true,
                _ => false,
            },
        }
    }
}

/// One request, ready to be sent: exactly one is sent per call.
#[derive(Clone, Debug, PartialEq, Eq)]
pub struct Request {
    pub operation: Operation,
    pub config: Configuration,
    /// The version marker sent with the request.
    pub api_version: String,
    pub parameters: Parameters,
}

/// What a `Request` stands for in contracts.
pub struct RequestModel {
    pub operation: Operation,
    pub config: ConfigurationModel,
    pub api_version: Seq<char>,
    pub parameters: ParametersModel,
}

impl View for Request {
    type V = RequestModel;

    open spec fn view(&self) -> RequestModel {
        RequestModel {
            operation: self.operation,
            config: self.config@,
            api_version: self.api_version@,
            parameters: self.parameters@,
        }
    }
}

/// The request of an operation that authenticates with an API key: the
/// configuration for the key and the tenant, the operation's own version marker,
/// and the given parameters.
pub open spec fn planned(
    operation: Operation,
    base_url: Seq<char>,
    token: Seq<char>,
    crn: Seq<char>,
    parameters: ParametersModel,
) -> RequestModel {
    RequestModel {
        operation,
        config: api_key_configuration(base_url, token, crn),
        api_version: default_version(operation),
        parameters,
    }
}

impl Request {
    /// A request is well formed when its parameters fit its operation and
    /// name the tenant of its configuration, where both name one.
    pub open spec fn well_formed(&self) -> bool {
        fits(self.operation, self.parameters@) && same_tenant(self.config@, self.parameters@)
    }

    /// Tells whether the request is well formed.
    pub fn is_well_formed(&self) -> (answer: bool)
        ensures
            answer == self.well_formed(),
    {
        if !self.parameters.fit(self.operation) {
            return false;
        }
        match (&self.config.crn, self.parameters.tenant()) {
            (Some(configured), Some(passed)) => same_text(configured.as_str(), passed),
            _ => true,
        }
    }

    /// Builds the request of an operation with the version marker that the
    /// operation sends by default. The request is well formed if the
    /// parameters fit the operation and name the tenant of the configuration.
    pub fn new(
        operation: Operation,
        config: Configuration,
        parameters: Parameters,
    ) -> (request: Request)
        ensures
            request@ == (RequestModel {
                operation,
                config: config@,
                api_version: default_version(operation),
                parameters: parameters@,
            }),
    {
        Request {
            operation,
            config,
            api_version: operation.default_api_version().to_owned(),
            parameters,
        }
    }

    /// The same request with another version marker. Nothing else changes.
    pub fn with_api_version(self, version: String) -> (request: Request)
        ensures
            request@ == (RequestModel { api_version: version@, ..self@ }),
            self.well_formed() ==> request.well_formed(),
    {
        Request {
            operation: self.operation,
            config: self.config,
            api_version: version,
            parameters: self.parameters,
        }
    }
}

} // verus!
