use bindings::config::{make_bearer_config, make_config, Configuration, Credential, API_KEY_PREFIX, USER_AGENT};
use bindings::operation::Operation;
use bindings::request::{Parameters, Request};

const OPERATIONS: [Operation; 8] = [
    Operation::ListBackends,
    Operation::ListBackendsBearer,
    Operation::GetBackendStatus,
    Operation::GetBackendConfiguration,
    Operation::GetBackendProperties,
    Operation::GetUsage,
    Operation::CreateSession,
    Operation::DeleteSession,
];

#[test]
fn make_config_holds_the_key_the_tenant_and_the_user_agent() {
    let config = make_config("https://api.example.com", "tok123", "crn:v1:test");
    assert_eq!(
        config,
        Configuration {
            base_url: "https://api.example.com".to_string(),
            credential: Credential::ApiKey { prefix: "apikey".to_string(), key: "tok123".to_string() },
            crn: Some("crn:v1:test".to_string()),
            user_agent: "qiskit-ibm-runtime-rust-client".to_string(),
        }
    );
    assert_eq!(USER_AGENT, "qiskit-ibm-runtime-rust-client");
    assert_eq!(API_KEY_PREFIX, "apikey");
}

#[test]
fn make_config_validates_nothing() {
    let config = make_config("", "", "");
    assert_eq!(config.base_url, "");
    assert_eq!(config.credential, Credential::ApiKey { prefix: "apikey".to_string(), key: String::new() });
    assert_eq!(config.crn, Some(String::new()));
    let config = make_config("not a url", "tok 123\n", "crn");
    assert_eq!(config.base_url, "not a url");
    assert_eq!(config.credential.authorization(), "apikey tok 123\n");
}

#[test]
fn make_bearer_config_holds_the_token_and_no_tenant() {
    let config = make_bearer_config("https://api.example.com", "tok123");
    assert_eq!(
        config,
        Configuration {
            base_url: "https://api.example.com".to_string(),
            credential: Credential::Bearer { token: "tok123".to_string() },
            crn: None,
            user_agent: "qiskit-ibm-runtime-rust-client".to_string(),
        }
    );
}

#[test]
fn authorization_follows_the_credential() {
    assert_eq!(Credential::Bearer { token: "tok123".to_string() }.authorization(), "Bearer tok123");
    assert_eq!(
        Credential::ApiKey { prefix: "apikey".to_string(), key: "tok123".to_string() }.authorization(),
        "apikey tok123"
    );
    assert_eq!(
        Credential::ApiKey { prefix: "Token".to_string(), key: String::new() }.authorization(),
        "Token "
    );
    assert_eq!(make_config("u", "k", "c").credential.authorization(), "apikey k");
    assert_eq!(make_bearer_config("u", "k").credential.authorization(), "Bearer k");
}

#[test]
fn every_operation_has_its_version_marker() {
    assert_eq!(Operation::ListBackends.default_api_version(), "2025-05-01");
    assert_eq!(Operation::ListBackendsBearer.default_api_version(), "2025-01-01");
    assert_eq!(Operation::GetBackendStatus.default_api_version(), "2025-05-01");
    assert_eq!(Operation::GetBackendConfiguration.default_api_version(), "2025-05-01");
    assert_eq!(Operation::GetBackendProperties.default_api_version(), "2025-01-01");
    assert_eq!(Operation::GetUsage.default_api_version(), "2025-05-01");
    assert_eq!(Operation::CreateSession.default_api_version(), "2025-05-01");
    assert_eq!(Operation::DeleteSession.default_api_version(), "2025-05-01");
}

#[test]
fn a_request_takes_the_version_marker_of_its_operation() {
    for operation in OPERATIONS {
        let request = Request::new(operation, make_config("u", "k", "c"), Parameters::Plain);
        assert_eq!(request.operation, operation);
        assert_eq!(request.api_version, operation.default_api_version());
        assert_eq!(request.config, make_config("u", "k", "c"));
        assert_eq!(request.parameters, Parameters::Plain);
    }
}

#[test]
fn the_requests_of_the_operations_are_well_formed() {
    let backend = Some("ibmq_test".to_string());
    let requests = [
        bindings::backends::list_backends_request("u", "k", "c"),
        bindings::backends_api::list_backends_py_request("u", "k", "c"),
        bindings::backends::get_backend_status_request("u", "k", "b", "c"),
        bindings::backends::get_backend_configuration_request("u", "k", "c", "b"),
        bindings::backends::get_backend_properties_request("u", "k", "c", "b"),
        bindings::instances::get_usage_request("u", "k", "c"),
        bindings::sessions::create_session_request("u", "k", backend, None, Some(60), "c"),
        bindings::sessions::delete_session_request("u", "k", "s", "c"),
    ];
    for request in requests {
        assert!(request.is_well_formed(), "{:?}", request);
        assert!(request.clone().with_api_version("2030-01-01".to_string()).is_well_formed());
    }
}

#[test]
fn a_request_is_ill_formed_when_its_parameters_do_not_fit() {
    let tenant = || Parameters::Tenant { crn: "c".to_string() };
    let backend = || Parameters::Backend { backend: "b".to_string(), crn: "c".to_string() };
    let properties =
        || Parameters::BackendProperties { backend: "b".to_string(), crn: "c".to_string(), filter: None };
    let session = || Parameters::Session { id: "s".to_string(), crn: "c".to_string() };
    let new_session = || Parameters::NewSession {
        session: bindings::sessions::CreateSessionRequest::new(None, &None, None),
    };
    let kinds: [(&dyn Fn() -> Parameters, &[Operation]); 6] = [
        (&|| Parameters::Plain, &[Operation::GetUsage]),
        (&tenant, &[Operation::ListBackends, Operation::ListBackendsBearer]),
        (&backend, &[Operation::GetBackendStatus, Operation::GetBackendConfiguration]),
        (&properties, &[Operation::GetBackendProperties]),
        (&new_session, &[Operation::CreateSession]),
        (&session, &[Operation::DeleteSession]),
    ];
    for (parameters, fitting) in kinds {
        for operation in OPERATIONS {
            assert_eq!(parameters().fit(operation), fitting.contains(&operation));
            let request = Request::new(operation, make_config("u", "k", "c"), parameters());
            assert_eq!(request.is_well_formed(), fitting.contains(&operation));
        }
    }
}

#[test]
fn a_request_is_ill_formed_when_it_names_two_tenants() {
    let parameters = || Parameters::Tenant { crn: "crn:v1:other".to_string() };
    assert_eq!(parameters().tenant(), Some("crn:v1:other"));
    assert_eq!(Parameters::Plain.tenant(), None);
    let request = Request::new(Operation::ListBackends, make_config("u", "k", "crn:v1:test"), parameters());
    assert!(!request.is_well_formed());
    let request = Request::new(Operation::ListBackends, make_config("u", "k", "crn:v1:other"), parameters());
    assert!(request.is_well_formed());
    let request = Request::new(Operation::ListBackendsBearer, make_bearer_config("u", "k"), parameters());
    assert!(request.is_well_formed());
}

#[test]
fn with_api_version_changes_the_marker_only() {
    let request = bindings::instances::get_usage_request("https://api.example.com", "tok123", "crn:v1:test");
    let changed = request.clone().with_api_version("2026-01-01".to_string());
    assert_eq!(changed.api_version, "2026-01-01");
    assert_eq!(changed.operation, request.operation);
    assert_eq!(changed.config, request.config);
    assert_eq!(changed.parameters, request.parameters);
    assert_eq!(changed.with_api_version("2025-05-01".to_string()), request);
}
