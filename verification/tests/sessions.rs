use bindings::config::Credential;
use bindings::error::Stage;
use bindings::instances::{get_usage, get_usage_request};
use bindings::operation::Operation;
use bindings::reply::Reply;
use bindings::request::Parameters;
use bindings::sessions::{
    create_session, create_session_request, delete_session, delete_session_request, parse_mode,
    select_mode, CreateSessionRequest, Mode,
};
use bindings::text::same_text;

fn answer(body: &str) -> Reply {
    Reply::Response { status: 200, body: body.to_string() }
}

fn text(value: &str) -> serde_json::Value {
    serde_json::Value::String(value.to_string())
}

fn number(value: u64) -> serde_json::Value {
    serde_json::Value::Number(serde_json::Number::from(value))
}

fn object(members: Vec<(&str, serde_json::Value)>) -> serde_json::Value {
    let mut map = serde_json::Map::new();
    for (key, value) in members {
        map.insert(key.to_string(), value);
    }
    serde_json::Value::Object(map)
}

#[test]
fn parse_mode_knows_two_words() {
    assert_eq!(parse_mode("batch"), Some(Mode::Batch));
    assert_eq!(parse_mode("dedicated"), Some(Mode::Dedicated));
    for word in ["", "Batch", "Dedicated", "batch ", "dedicate", "dedicatedd", "session", "b\u{e4}tch"] {
        assert_eq!(parse_mode(word), None, "{:?}", word);
    }
}

#[test]
fn same_text_compares_character_by_character() {
    assert!(same_text("", ""));
    assert!(same_text("dedicated", "dedicated"));
    assert!(same_text("\u{e9}t\u{e9} \u{1f600}", "\u{e9}t\u{e9} \u{1f600}"));
    assert!(!same_text("dedicated", "dedicate"));
    assert!(!same_text("dedicate", "dedicated"));
    assert!(!same_text("dedicated", "dedicatee"));
    assert!(!same_text("a", "A"));
    assert!(!same_text("", " "));
    assert!(!same_text("\u{e9}", "e"));
    assert!(!same_text("\u{e9}", "\u{e8}"));
}

#[test]
fn dedicated_selects_the_dedicated_mode() {
    assert_eq!(select_mode(&Some("dedicated".to_string())), Mode::Dedicated);
}

#[test]
fn every_other_mode_selects_batch() {
    assert_eq!(select_mode(&None), Mode::Batch);
    for word in ["", "batch", "Dedicated", "DEDICATED", "dedicated ", " dedicated", "dedicate", "dedicatedd", "session"] {
        assert_eq!(select_mode(&Some(word.to_string())), Mode::Batch, "{:?}", word);
    }
}

#[test]
fn create_session_without_a_mode_asks_for_batch() {
    let request = create_session_request(
        "https://api.example.com",
        "tok123",
        Some("ibmq_test".to_string()),
        None,
        None,
        "crn:v1:test",
    );
    assert_eq!(request.operation, Operation::CreateSession);
    assert_eq!(
        request.parameters,
        Parameters::NewSession {
            session: CreateSessionRequest {
                max_ttl: None,
                mode: Mode::Batch,
                backend: Some("ibmq_test".to_string()),
                backend_name: Some("ibmq_test".to_string()),
            },
        }
    );
    assert_eq!(request.api_version, "2025-05-01");
    assert_eq!(request.config.base_url, "https://api.example.com");
    assert_eq!(request.config.crn, Some("crn:v1:test".to_string()));
    assert_eq!(
        request.config.credential,
        Credential::ApiKey { prefix: "apikey".to_string(), key: "tok123".to_string() }
    );
}

#[test]
fn create_session_with_the_dedicated_mode_asks_for_it() {
    let request = create_session_request(
        "https://api.example.com",
        "tok123",
        None,
        Some("dedicated".to_string()),
        Some(3600),
        "crn:v1:test",
    );
    assert_eq!(
        request.parameters,
        Parameters::NewSession {
            session: CreateSessionRequest {
                max_ttl: Some(3600),
                mode: Mode::Dedicated,
                backend: None,
                backend_name: None,
            },
        }
    );
}

#[test]
fn create_session_with_an_unknown_mode_asks_for_batch() {
    for word in ["", "batch", "interactive", "Dedicated"] {
        let payload = CreateSessionRequest::new(Some("b".to_string()), &Some(word.to_string()), Some(-1));
        assert_eq!(payload.mode, Mode::Batch);
        assert_eq!(payload.max_ttl, Some(-1));
        assert_eq!(payload.backend, Some("b".to_string()));
        assert_eq!(payload.backend_name, Some("b".to_string()));
    }
}

#[test]
fn create_session_hands_the_session_on_as_pretty_json() {
    let body = r#"{"backend_name":"ibmq_test","id":"s-1","max_ttl":28800,"mode":"batch"}"#;
    let expected = "{\n  \"backend_name\": \"ibmq_test\",\n  \"id\": \"s-1\",\n  \"max_ttl\": 28800,\n  \"mode\": \"batch\"\n}";
    assert_eq!(create_session(answer(body)), Ok(expected.to_string()));
}

#[test]
fn create_session_round_trips_the_answer() {
    let mock = object(vec![
        ("accepting_jobs", serde_json::Value::Bool(true)),
        ("backend_name", text("ibmq_test")),
        ("id", text("session \"one\"\n")),
        ("max_ttl", number(28800)),
        ("mode", text("dedicated")),
        ("timestamps", serde_json::Value::Array(vec![number(1), number(2), serde_json::Value::Null])),
        ("user", object(vec![("name", text("\u{e9}t\u{e9}"))])),
    ]);
    let printed = create_session(answer(&serde_json::to_string(&mock).unwrap())).unwrap();
    assert_eq!(serde_json::from_str::<serde_json::Value>(&printed).unwrap(), mock);
    assert_eq!(printed, serde_json::to_string_pretty(&mock).unwrap());
}

#[test]
fn get_usage_round_trips_the_answer() {
    let mock = object(vec![
        ("instance_id", text("crn:v1:test")),
        ("plan_id", text("open")),
        ("usage_consumed_seconds", number(120)),
        ("usage_limit_seconds", number(600)),
        ("usage_period", object(vec![("end_time", text("2025-06-01")), ("start_time", text("2025-05-01"))])),
    ]);
    let printed = get_usage(answer(&serde_json::to_string(&mock).unwrap())).unwrap();
    assert_eq!(serde_json::from_str::<serde_json::Value>(&printed).unwrap(), mock);
    assert!(printed.contains('\n'));
}

#[test]
fn get_usage_hands_on_what_the_parser_read() {
    for body in ["0.1", "1e3", "-1.1193133179981887e-17", "[6.100029174392375e+177]", "12345678901234567890123"] {
        let read: serde_json::Value = serde_json::from_str(body).unwrap();
        assert_eq!(get_usage(answer(body)), Ok(serde_json::to_string_pretty(&read).unwrap()));
    }
    assert_eq!(get_usage(answer("1e3")), Ok("1000.0".to_string()));
    assert_eq!(get_usage(answer("0.1")), Ok("0.1".to_string()));
}

#[test]
fn get_usage_prints_pretty_json() {
    assert_eq!(get_usage(answer(r#"{"usage":5}"#)), Ok("{\n  \"usage\": 5\n}".to_string()));
    assert_eq!(get_usage(answer("[]")), Ok("[]".to_string()));
    assert_eq!(get_usage(answer("null")), Ok("null".to_string()));
    assert_eq!(get_usage(answer(r#"[1,{"a":[]}]"#)), Ok("[\n  1,\n  {\n    \"a\": []\n  }\n]".to_string()));
}

#[test]
fn get_usage_request_sends_no_parameters() {
    let request = get_usage_request("https://api.example.com", "tok123", "crn:v1:test");
    assert_eq!(request.operation, Operation::GetUsage);
    assert_eq!(request.parameters, Parameters::Plain);
    assert_eq!(request.api_version, "2025-05-01");
    assert_eq!(request.config.crn, Some("crn:v1:test".to_string()));
}

#[test]
fn usage_and_session_failures_carry_their_prefixes() {
    let calls: [fn(Reply) -> Result<String, bindings::error::ApiError>; 2] = [get_usage, create_session];
    let cause = serde_json::from_str::<serde_json::Value>("{\"a\":}").unwrap_err().to_string();
    for call in calls {
        let error = call(Reply::RuntimeFailure { cause: "no threads".to_string() }).unwrap_err();
        assert_eq!((error.stage, error.message.as_str()), (Stage::Runtime, "Tokio runtime error: no threads"));
        let error = call(Reply::TransportFailure { cause: "connection refused".to_string() }).unwrap_err();
        assert_eq!((error.stage, error.message.as_str()), (Stage::Transport, "API call failed: connection refused"));
        let error = call(Reply::Response { status: 500, body: "{}".to_string() }).unwrap_err();
        assert_eq!((error.stage, error.message.as_str()), (Stage::Transport, "API call failed: status code 500"));
        let error = call(answer("{\"a\":}")).unwrap_err();
        assert_eq!(error.stage, Stage::Deserialization);
        assert_eq!(error.message, format!("Response deserialization failed: {}", cause));
    }
}

#[test]
fn a_malformed_body_and_a_transport_failure_differ_in_message() {
    let malformed = get_usage(answer("not json")).unwrap_err();
    assert_eq!(malformed.stage, Stage::Deserialization);
    assert_eq!(malformed.message, "Response deserialization failed: expected ident at line 1 column 2");
    let refused = get_usage(Reply::TransportFailure { cause: "expected ident at line 1 column 2".to_string() })
        .unwrap_err();
    assert_eq!(refused.stage, Stage::Transport);
    assert_ne!(malformed.message, refused.message);
    let rejected = get_usage(Reply::Response { status: 404, body: "not json".to_string() }).unwrap_err();
    assert_eq!(rejected.stage, Stage::Transport);
    assert_ne!(malformed.message, rejected.message);
}

#[test]
fn an_error_status_is_never_a_success() {
    let body = r#"{"devices":[],"usage":0}"#;
    for status in [400u16, 401, 403, 404, 429, 499, 500, 502, 503, 599] {
        let reply = || Reply::Response { status, body: body.to_string() };
        let expected = format!("API call failed: status code {}", status);
        let error = get_usage(reply()).unwrap_err();
        assert_eq!((error.stage, error.message), (Stage::Transport, expected.clone()));
        let error = create_session(reply()).unwrap_err();
        assert_eq!((error.stage, error.message), (Stage::Transport, expected.clone()));
        let error = delete_session(reply()).unwrap_err();
        assert_eq!((error.stage, error.message), (Stage::Transport, expected.clone()));
        let error = bindings::backends::list_backends(reply()).unwrap_err();
        assert_eq!((error.stage, error.message), (Stage::Transport, expected));
    }
}

#[test]
fn other_statuses_are_read() {
    for status in [100u16, 200, 201, 204, 302, 399, 600, 999, 0, 65535] {
        let reply = Reply::Response { status, body: r#"{"usage":0}"#.to_string() };
        assert_eq!(get_usage(reply), Ok("{\n  \"usage\": 0\n}".to_string()));
    }
}

#[test]
fn delete_session_request_names_the_session() {
    let request = delete_session_request("https://api.example.com", "tok123", "s-1", "crn:v1:test");
    assert_eq!(request.operation, Operation::DeleteSession);
    assert_eq!(request.api_version, "2025-05-01");
    assert_eq!(
        request.parameters,
        Parameters::Session { id: "s-1".to_string(), crn: "crn:v1:test".to_string() }
    );
}

#[test]
fn delete_session_does_not_read_the_body() {
    assert_eq!(delete_session(Reply::Response { status: 204, body: String::new() }), Ok(()));
    assert_eq!(delete_session(answer("not json")), Ok(()));
    let error = delete_session(Reply::TransportFailure { cause: "reset".to_string() }).unwrap_err();
    assert_eq!((error.stage, error.message.as_str()), (Stage::Transport, "API call failed: reset"));
    let error = delete_session(Reply::RuntimeFailure { cause: "reset".to_string() }).unwrap_err();
    assert_eq!((error.stage, error.message.as_str()), (Stage::Runtime, "Tokio runtime error: reset"));
}
