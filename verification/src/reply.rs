//! What comes back from the one request of a call, and the steps that every
//! operation takes with it: accept or reject the answer, decode its body, and
//! print the decoded value again.

use vstd::prelude::*;
use vstd::string::*;
use crate::error::{failure, plain_result, text_result, ApiError, Failure, Stage};
use crate::json::{compact, description, parsed, pretty};
use crate::operation::Operation;

verus! {

/// The event that ends the wait for an answer.
#[derive(Clone, Debug, PartialEq, Eq)]
pub enum Reply {
    /// The execution context for the request could not be started.
    RuntimeFailure { cause: String },
    /// The request was sent, or was to be sent, and no answer arrived.
    TransportFailure { cause: String },
    /// The service answered.
    Response { status: u16, body: String },
}

/// What a `Reply` stands for in contracts.
pub enum ReplyModel {
    RuntimeFailure { cause: Seq<char> },
    TransportFailure { cause: Seq<char> },
    Response { status: u16, body: Seq<char> },
}

impl View for Reply {
    type V = ReplyModel;

    open spec fn view(&self) -> ReplyModel {
        match *self {
            Reply::RuntimeFailure { cause } => ReplyModel::RuntimeFailure { cause: cause@ },
            Reply::TransportFailure { cause } => ReplyModel::TransportFailure { cause: cause@ },
            Reply::Response { status, body } => ReplyModel::Response { status, body: body@ },
        }
    }
}

/// A status reports a failure when it is a client error or a server error.
pub open spec fn is_error_status(status: u16) -> bool {
    400 <= status <= 599
}

/// The numeral of a value below ten.
pub open spec fn digit(value: nat) -> Seq<char> {
    seq![((48 + value) as u8) as char]
}

/// A number in decimal notation, without leading zeros.
pub open spec fn decimal(value: nat) -> Seq<char>
    decreases value,
{
    if value < 10 {
        digit(value)
    } else {
        decimal(value / 10) + digit(value % 10)
    }
}

/// The cause given for an answer with an error status.
pub open spec fn status_cause(status: u16) -> Seq<char> {
    "status code "@ + decimal(status as nat)
}

/// Whether no usable answer arrived: the request failed on its way, or the
/// service answered with an error status.
pub open spec fn failed_in_transit(reply: ReplyModel) -> bool {
    match reply {
        ReplyModel::RuntimeFailure { .. } => false,
        ReplyModel::TransportFailure { .. } => true,
        ReplyModel::Response { status, .. } => is_error_status(status),
    }
}

/// The body of an answer that can be used, or the failure that the reply stands
/// for.
pub open spec fn accepted(operation: Operation, reply: ReplyModel) -> Result<Seq<char>, Failure> {
    match reply {
        ReplyModel::RuntimeFailure { cause } => Err(failure(operation, Stage::Runtime, cause)),
        ReplyModel::TransportFailure { cause } => Err(failure(operation, Stage::Transport, cause)),
        ReplyModel::Response { status, body } => if is_error_status(status) {
            Err(failure(operation, Stage::Transport, status_cause(status)))
        } else {
            Ok(body)
        },
    }
}

/// The numeral of a value below ten, as text.
fn digit_text(value: u16) -> (text: &'static str)
    requires
        value < 10,
    ensures
        text@ == digit(value as nat),
{
    proof {
        reveal_strlit("0");
        reveal_strlit("1");
        reveal_strlit("2");
        reveal_strlit("3");
        reveal_strlit("4");
        reveal_strlit("5");
        reveal_strlit("6");
        reveal_strlit("7");
        reveal_strlit("8");
        reveal_strlit("9");
    }
    let text = match value {
        0 => "0",
        1 => "1",
        2 => "2",
        3 => "3",
        4 => "4",
        5 => "5",
        6 => "6",
        7 => "7",
        8 => "8",
        _ => "9",
    };
    assert(text@ =~= digit(value as nat));
    text
}

/// Writes a number in decimal notation behind a text.
fn append_decimal(text: &mut String, value: u16)
    ensures
        final(text)@ == old(text)@ + decimal(value as nat),
    decreases value,
{
    if value >= 10 {
        append_decimal(text, value / 10);
    }
    text.append(digit_text(value % 10));
    assert(final(text)@ =~= old(text)@ + decimal(value as nat));
}

/// Tells whether a status reports a failure.
pub fn status_is_error(status: u16) -> (answer: bool)
    ensures
        answer == is_error_status(status),
{
    400 <= status && status <= 599
}

/// Separates the answers that can be used from the rest. An answer with an
/// error status, a request that failed on its way and a context that did not
/// start are failures, each with its stage; any other answer yields its body.
pub fn accept(operation: Operation, reply: Reply) -> (outcome: Result<String, ApiError>)
    ensures
        text_result(outcome) == accepted(operation, reply@),
{
    match reply {
        Reply::RuntimeFailure { cause } => Err(
            ApiError::new(operation, Stage::Runtime, cause.as_str()),
        ),
        Reply::TransportFailure { cause } => Err(
            ApiError::new(operation, Stage::Transport, cause.as_str()),
        ),
        Reply::Response { status, body } => {
            if status_is_error(status) {
                let mut cause = String::from_str("status code ");
                append_decimal(&mut cause, status);
                Err(ApiError::new(operation, Stage::Transport, cause.as_str()))
            } else {
                Ok(body)
            }
        },
    }
}

/// How a decoded answer is printed.
#[derive(Clone, Copy, Debug, PartialEq, Eq, Structural)]
pub enum Style {
    /// On one line, without insignificant white space.
    Compact,
    /// Over several lines, indented.
    Pretty,
}

/// What printing a value in a style yields.
pub open spec fn printed(
    style: Style,
    value: serde_json::Value,
) -> Result<Seq<char>, serde_json::Error> {
    match style {
        Style::Compact => compact(value),
        Style::Pretty => pretty(value),
    }
}

/// The decoded body, or the failure to decode it.
pub open spec fn decoding(
    operation: Operation,
    parse: Result<serde_json::Value, serde_json::Error>,
) -> Result<serde_json::Value, Failure> {
    match parse {
        Ok(value) => Ok(value),
        Err(error) => Err(failure(operation, Stage::Deserialization, description(error))),
    }
}

/// The printed text, or the failure to print it.
pub open spec fn rendering(
    operation: Operation,
    print: Result<Seq<char>, serde_json::Error>,
) -> Result<Seq<char>, Failure> {
    match print {
        Ok(text) => Ok(text),
        Err(error) => Err(failure(operation, Stage::Serialization, description(error))),
    }
}

/// What a call returns that hands the answer on as JSON text: the body is
/// accepted, decoded, and printed again in the given style, and the first step
/// that fails decides the error.
pub open spec fn passed_through(
    operation: Operation,
    style: Style,
    reply: ReplyModel,
) -> Result<Seq<char>, Failure> {
    match accepted(operation, reply) {
        Err(rejection) => Err(rejection),
        Ok(body) => match decoding(operation, parsed(body)) {
            Err(malformed) => Err(malformed),
            Ok(value) => rendering(operation, printed(style, value)),
        },
    }
}

/// What a call returns that expects no content: nothing, unless the reply is a
/// failure.
pub open spec fn acknowledged(operation: Operation, reply: ReplyModel) -> Result<(), Failure> {
    match accepted(operation, reply) {
        Err(rejection) => Err(rejection),
        Ok(_) => Ok(()),
    }
}

/// Turns the outcome of parsing a body into the outcome of the decoding stage:
/// a value is handed on, an error becomes a deserialization failure that
/// carries the parser's description.
pub fn decoded(
    operation: Operation,
    parse: Result<serde_json::Value, serde_json::Error>,
) -> (outcome: Result<serde_json::Value, ApiError>)
    ensures
        plain_result(outcome) == decoding(operation, parse),
{
    match parse {
        Ok(value) => Ok(value),
        Err(error) => {
            let cause = crate::json::describe(&error);
            Err(ApiError::new(operation, Stage::Deserialization, cause.as_str()))
        },
    }
}

/// Decodes the body of an answer as one JSON value.
pub fn decode(operation: Operation, body: &str) -> (outcome: Result<serde_json::Value, ApiError>)
    ensures
        plain_result(outcome) == decoding(operation, parsed(body@)),
{
    decoded(operation, crate::json::parse(body))
}

/// The outcome of printing, as contracts see it.
pub open spec fn print_result(
    print: Result<String, serde_json::Error>,
) -> Result<Seq<char>, serde_json::Error> {
    match print {
        Ok(text) => Ok(text@),
        Err(error) => Err(error),
    }
}

/// Turns the outcome of printing a value into the outcome of the printing
/// stage: the text is handed on, an error becomes a serialization failure that
/// carries the printer's description.
pub fn rendered(
    operation: Operation,
    print: Result<String, serde_json::Error>,
) -> (outcome: Result<String, ApiError>)
    ensures
        text_result(outcome) == rendering(operation, print_result(print)),
{
    match print {
        Ok(text) => Ok(text),
        Err(error) => {
            let cause = crate::json::describe(&error);
            Err(ApiError::new(operation, Stage::Serialization, cause.as_str()))
        },
    }
}

/// Prints a decoded answer in the given style.
pub(crate) fn render(
    operation: Operation,
    style: Style,
    value: &serde_json::Value,
) -> (outcome: Result<String, ApiError>)
    ensures
        text_result(outcome) == rendering(operation, printed(style, *value)),
{
    match style {
        Style::Compact => rendered(operation, crate::json::print_compact(value)),
        Style::Pretty => rendered(operation, crate::json::print_pretty(value)),
    }
}

/// Hands the answer on as JSON text: accepts the reply, decodes its body and
/// prints the value again. Nothing is retried and no failure is replaced by a
/// default.
pub fn pass_through(
    operation: Operation,
    style: Style,
    reply: Reply,
) -> (outcome: Result<String, ApiError>)
    ensures
        text_result(outcome) == passed_through(operation, style, reply@),
{
    match accept(operation, reply) {
        Err(rejection) => Err(rejection),
        Ok(body) => match decode(operation, body.as_str()) {
            Err(malformed) => Err(malformed),
            Ok(value) => render(operation, style, &value),
        },
    }
}

/// Accepts a reply whose body does not matter.
pub fn acknowledge(operation: Operation, reply: Reply) -> (outcome: Result<(), ApiError>)
    ensures
        plain_result(outcome) == acknowledged(operation, reply@),
{
    match accept(operation, reply) {
        Err(rejection) => Err(rejection),
        Ok(_) => Ok(()),
    }
}

} // verus!
