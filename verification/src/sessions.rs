//! Sessions: reserved execution contexts on a backend.

use vstd::prelude::*;
use crate::config::make_config;
use crate::error::{plain_result, text_result, ApiError};
use crate::operation::Operation;
use crate::reply::{acknowledge, acknowledged, pass_through, passed_through, Reply, Style};
use crate::request::{planned, Parameters, ParametersModel, Request};
use crate::text::{optional_text, same_text};

verus! {

/// How the jobs of a session are executed.
#[derive(Clone, Copy, Debug, PartialEq, Eq, Structural)]
pub enum Mode {
    Batch,
    Dedicated,
}

/// The mode that a word names, if it names one.
pub open spec fn named_mode(word: Seq<char>) -> Option<Mode> {
    if word == "batch"@ {
        Some(Mode::Batch)
    } else if word == "dedicated"@ {
        Some(Mode::Dedicated)
    } else {
        None
    }
}

/// The mode that a requested mode stands for: `dedicated` for exactly that word,
/// `batch` for every other text and for none.
pub open spec fn selected_mode(requested: Option<Seq<char>>) -> Mode {
    if requested == Some("dedicated"@) {
        Mode::Dedicated
    } else {
        Mode::Batch
    }
}

/// Reads a mode strictly: a word that names no mode is told apart from one
/// that does.
pub fn parse_mode(word: &str) -> (mode: Option<Mode>)
    ensures
        mode == named_mode(word@),
{
    if same_text(word, "batch") {
        Some(Mode::Batch)
    } else if same_text(word, "dedicated") {
        Some(Mode::Dedicated)
    } else {
        None
    }
}

/// Chooses the mode of a session leniently. A word that names no mode is not
/// rejected: it selects `batch`, as the absence of a mode does.
pub fn select_mode(requested: &Option<String>) -> (mode: Mode)
    ensures
        mode == selected_mode(optional_text(*requested)),
{
    proof {
        reveal_strlit("batch");
        reveal_strlit("dedicated");
        assert("batch"@.len() == 5);
        assert("dedicated"@.len() == 9);
    }
    match requested {
        Some(word) => match parse_mode(word.as_str()) {
            Some(mode) => mode,
            None => Mode::Batch,
        },
        None => Mode::Batch,
    }
}

/// The payload of the request that creates a session.
#[derive(Clone, Debug, PartialEq, Eq)]
pub struct CreateSessionRequest {
    /// The longest time the session may live, if limited.
    pub max_ttl: Option<i32>,
    pub mode: Mode,
    pub backend: Option<String>,
    /// The backend once more, under the name that earlier revisions of the
    /// service read.
    pub backend_name: Option<String>,
}

/// What a `CreateSessionRequest` stands for in contracts.
pub struct SessionModel {
    pub max_ttl: Option<i32>,
    pub mode: Mode,
    pub backend: Option<Seq<char>>,
    pub backend_name: Option<Seq<char>>,
}

impl View for CreateSessionRequest {
    type V = SessionModel;

    open spec fn view(&self) -> SessionModel {
        SessionModel {
            max_ttl: self.max_ttl,
            mode: self.mode,
            backend: optional_text(self.backend),
            backend_name: optional_text(self.backend_name),
        }
    }
}

/// The payload for a session on `backend` with the requested mode and lifetime.
pub open spec fn session_payload(
    backend: Option<Seq<char>>,
    mode: Option<Seq<char>>,
    max_ttl: Option<i32>,
) -> SessionModel {
    SessionModel { max_ttl, mode: selected_mode(mode), backend, backend_name: backend }
}

/// The payload asks for the dedicated mode if the word `dedicated` was
/// requested, and for `batch` in every other case: for any other text, for the
/// empty text and where no mode was requested. A word that names a mode selects
/// that mode. The backend and the lifetime have no part in it.
pub proof fn only_dedicated_selects_dedicated(
    backend: Option<Seq<char>>,
    requested: Option<Seq<char>>,
    max_ttl: Option<i32>,
)
    ensures
        requested == Some("dedicated"@) ==> session_payload(backend, requested, max_ttl).mode
            == Mode::Dedicated,
        requested != Some("dedicated"@) ==> session_payload(backend, requested, max_ttl).mode
            == Mode::Batch,
        session_payload(backend, None, max_ttl).mode == Mode::Batch,
        session_payload(backend, Some(Seq::empty()), max_ttl).mode == Mode::Batch,
        requested matches Some(word) ==> session_payload(backend, requested, max_ttl).mode == (
        match named_mode(word) {
            Some(mode) => mode,
            None => Mode::Batch,
        }),
{
    reveal_strlit("batch");
    reveal_strlit("dedicated");
    assert("batch"@.len() == 5);
    assert("dedicated"@.len() == 9);
}

impl CreateSessionRequest {
    /// Builds the payload: the mode is selected from the requested one, and the
    /// backend is given under both of its names.
    pub fn new(
        backend: Option<String>,
        mode: &Option<String>,
        max_ttl: Option<i32>,
    ) -> (payload: CreateSessionRequest)
        ensures
            payload@ == session_payload(optional_text(backend), optional_text(*mode), max_ttl),
    {
        let backend_name = match &backend {
            Some(name) => Some(name.clone()),
            None => None,
        };
        CreateSessionRequest { max_ttl, mode: select_mode(mode), backend, backend_name }
    }
}

/// Describes the request that creates a session. The mode is `dedicated` only
/// if exactly that word is requested, and `batch` otherwise.
pub fn create_session_request(
    base_url: &str,
    token: &str,
    backend: Option<String>,
    mode: Option<String>,
    max_ttl: Option<i32>,
    crn: &str,
) -> (request: Request)
    ensures
        request.well_formed(),
        request@ == planned(
            Operation::CreateSession,
            base_url@,
            token@,
            crn@,
            ParametersModel::NewSession {
                session: session_payload(optional_text(backend), optional_text(mode), max_ttl),
            },
        ),
{
    let session = CreateSessionRequest::new(backend, &mode, max_ttl);
    Request::new(
        Operation::CreateSession,
        make_config(base_url, token, crn),
        Parameters::NewSession { session },
    )
}

/// Returns the created session as pretty-printed JSON.
pub fn create_session(reply: Reply) -> (outcome: Result<String, ApiError>)
    ensures
        text_result(outcome) == passed_through(Operation::CreateSession, Style::Pretty, reply@),
{
    pass_through(Operation::CreateSession, Style::Pretty, reply)
}

/// Describes the request that deletes a session.
pub fn delete_session_request(
    base_url: &str,
    token: &str,
    session_id: &str,
    crn: &str,
) -> (request: Request)
    ensures
        request.well_formed(),
        request@ == planned(
            Operation::DeleteSession,
            base_url@,
            token@,
            crn@,
            ParametersModel::Session { id: session_id@, crn: crn@ },
        ),
{
    Request::new(
        Operation::DeleteSession,
        make_config(base_url, token, crn),
        Parameters::Session { id: session_id.to_owned(), crn: crn.to_owned() },
    )
}

/// Returns nothing once the service has answered the deletion without an error
/// status. The body of the answer is not read.
pub fn delete_session(reply: Reply) -> (outcome: Result<(), ApiError>)
    ensures
        plain_result(outcome) == acknowledged(Operation::DeleteSession, reply@),
{
    acknowledge(Operation::DeleteSession, reply)
}

} // verus!
