//! The one error kind of the crate. Its message starts with a prefix that tells
//! which stage of a call failed, followed by the cause.

use vstd::prelude::*;
use vstd::string::*;
use crate::operation::Operation;
use crate::text::texts;

verus! {

/// The stage of a call at which it failed.
#[derive(Clone, Copy, Debug, PartialEq, Eq, Structural)]
pub enum Stage {
    /// The execution context for the request could not be started.
    Runtime,
    /// The request was not answered, or answered with a client or server error.
    Transport,
    /// The body of the answer is not the JSON that the operation expects.
    Deserialization,
    /// The answer could not be written back as JSON text.
    Serialization,
}

/// A failed call: the stage, and the message shown to the host.
#[derive(Clone, Debug, PartialEq, Eq)]
pub struct ApiError {
    pub stage: Stage,
    pub message: String,
}

/// What an `ApiError` stands for in contracts.
pub struct Failure {
    pub stage: Stage,
    pub message: Seq<char>,
}

impl View for ApiError {
    type V = Failure;

    open spec fn view(&self) -> Failure {
        Failure { stage: self.stage, message: self.message@ }
    }
}

/// The outcome of a call that yields text, as contracts see it.
pub open spec fn text_result(outcome: Result<String, ApiError>) -> Result<Seq<char>, Failure> {
    match outcome {
        Ok(text) => Ok(text@),
        Err(error) => Err(error@),
    }
}

/// The outcome of a call that yields a list of texts, as contracts see it.
pub open spec fn names_result(
    outcome: Result<Vec<String>, ApiError>,
) -> Result<Seq<Seq<char>>, Failure> {
    match outcome {
        Ok(list) => Ok(texts(list@)),
        Err(error) => Err(error@),
    }
}

/// The outcome of a call whose value has no view of its own, as contracts see
/// it.
pub open spec fn plain_result<T>(outcome: Result<T, ApiError>) -> Result<T, Failure> {
    match outcome {
        Ok(value) => Ok(value),
        Err(error) => Err(error@),
    }
}

/// The characters that open the message of a failure of `operation` at
/// `stage`.
pub open spec fn prefix(operation: Operation, stage: Stage) -> Seq<char> {
    match stage {
        Stage::Runtime => match operation {
            Operation::ListBackends
            | Operation::ListBackendsBearer => "Failed to start Tokio runtime: "@,
            _ => "Tokio runtime error: "@,
        },
        Stage::Transport => match operation {
            Operation::GetBackendStatus
            | Operation::GetBackendConfiguration
            | Operation::GetBackendProperties => "API error: "@,
            _ => "API call failed: "@,
        },
        Stage::Deserialization => "Response deserialization failed: "@,
        Stage::Serialization => match operation {
            Operation::GetBackendStatus
            | Operation::GetBackendConfiguration
            | Operation::GetBackendProperties => "Serialization failed: "@,
            _ => "JSON serialization failed: "@,
        },
    }
}

/// The failure of `operation` at `stage` for a given cause.
pub open spec fn failure(operation: Operation, stage: Stage, cause: Seq<char>) -> Failure {
    Failure { stage, message: prefix(operation, stage) + cause }
}

/// The text that opens the message of a failure of `operation` at `stage`.
pub fn stage_prefix(operation: Operation, stage: Stage) -> (text: &'static str)
    ensures
        text@ == prefix(operation, stage),
{
    match stage {
        Stage::Runtime => match operation {
            Operation::ListBackends
            | Operation::ListBackendsBearer => "Failed to start Tokio runtime: ",
            _ => "Tokio runtime error: ",
        },
        Stage::Transport => match operation {
            Operation::GetBackendStatus
            | Operation::GetBackendConfiguration
            | Operation::GetBackendProperties => "API error: ",
            _ => "API call failed: ",
        },
        Stage::Deserialization => "Response deserialization failed: ",
        Stage::Serialization => match operation {
            Operation::GetBackendStatus
            | Operation::GetBackendConfiguration
            | Operation::GetBackendProperties => "Serialization failed: ",
            _ => "JSON serialization failed: ",
        },
    }
}

impl ApiError {
    /// Builds the error for a failure of `operation` at `stage`: the stage's
    /// prefix, then the cause unchanged.
    pub fn new(operation: Operation, stage: Stage, cause: &str) -> (error: ApiError)
        ensures
            error@ == failure(operation, stage, cause@),
    {
        let message = String::from_str(stage_prefix(operation, stage)).concat(cause);
        ApiError { stage, message }
    }
}

/// The first character of every prefix is fixed by the stage alone.
proof fn prefix_opening(operation: Operation, stage: Stage)
    ensures
        prefix(operation, stage).len() > 0,
        ({
            let opening = prefix(operation, stage)[0];
            match stage {
                Stage::Runtime => opening == 'F' || opening == 'T',
                Stage::Transport => opening == 'A',
                Stage::Deserialization => opening == 'R',
                Stage::Serialization => opening == 'S' || opening == 'J',
            }
        }),
{
    reveal_strlit("Failed to start Tokio runtime: ");
    reveal_strlit("Tokio runtime error: ");
    reveal_strlit("API error: ");
    reveal_strlit("API call failed: ");
    reveal_strlit("Response deserialization failed: ");
    reveal_strlit("Serialization failed: ");
    reveal_strlit("JSON serialization failed: ");
}

/// Failures at different stages never share a message, whatever the operations
/// and the causes: the message alone tells which stage failed.
pub proof fn message_tells_stage(
    first: Operation,
    first_stage: Stage,
    first_cause: Seq<char>,
    second: Operation,
    second_stage: Stage,
    second_cause: Seq<char>,
)
    requires
        first_stage != second_stage,
    ensures
        failure(first, first_stage, first_cause).message != failure(
            second,
            second_stage,
            second_cause,
        ).message,
{
    prefix_opening(first, first_stage);
    prefix_opening(second, second_stage);
    let a = prefix(first, first_stage) + first_cause;
    let b = prefix(second, second_stage) + second_cause;
    assert(a[0] == prefix(first, first_stage)[0]);
    assert(b[0] == prefix(second, second_stage)[0]);
}

} // verus!
