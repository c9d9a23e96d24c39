//! What holds of every call, whichever operation it belongs to.

use vstd::prelude::*;
use crate::error::{message_tells_stage, Stage};
use crate::json::{model, parsed};
use crate::listing::{listed, named, read, records};
use crate::operation::Operation;
use crate::reply::{
    accepted, acknowledged, failed_in_transit, is_error_status, passed_through, printed, ReplyModel,
    Style,
};

verus! {

/// Whether the service answered without an error status, with a body that is
/// not JSON.
pub open spec fn malformed(reply: ReplyModel) -> bool {
    match reply {
        ReplyModel::Response { status, body } => !is_error_status(status) && parsed(body) is Err,
        _ => false,
    }
}

/// Whether the service answered without an error status, with a body that is
/// JSON but holds no list of named backends under `field`.
pub open spec fn misshapen(reply: ReplyModel, field: Seq<char>, required: bool) -> bool {
    match reply {
        ReplyModel::Response { status, body } => !is_error_status(status) && match parsed(body) {
            Ok(response) => match records(model(response), field, required) {
                Some(found) => !named(found),
                None => true,
            },
            Err(_) => false,
        },
        _ => false,
    }
}

/// A request that failed on its way, or was answered with an error status,
/// ends every call with an error of the transport stage: no operation turns it
/// into a value, empty or not.
pub proof fn transit_failure_is_an_error(
    operation: Operation,
    style: Style,
    field: Seq<char>,
    required: bool,
    reply: ReplyModel,
)
    requires
        failed_in_transit(reply),
    ensures
        accepted(operation, reply) matches Err(rejection) && rejection.stage == Stage::Transport,
        passed_through(operation, style, reply) == Err::<Seq<char>, _>(
            accepted(operation, reply)->Err_0,
        ),
        listed(operation, field, required, reply) == Err::<Seq<Seq<char>>, _>(
            accepted(operation, reply)->Err_0,
        ),
        acknowledged(operation, reply) == Err::<(), _>(accepted(operation, reply)->Err_0),
{
}

/// A context that did not start ends every call with an error of the runtime
/// stage.
pub proof fn runtime_failure_is_an_error(
    operation: Operation,
    style: Style,
    field: Seq<char>,
    required: bool,
    reply: ReplyModel,
)
    requires
        reply is RuntimeFailure,
    ensures
        accepted(operation, reply) matches Err(rejection) && rejection.stage == Stage::Runtime,
        passed_through(operation, style, reply) == Err::<Seq<char>, _>(
            accepted(operation, reply)->Err_0,
        ),
        listed(operation, field, required, reply) == Err::<Seq<Seq<char>>, _>(
            accepted(operation, reply)->Err_0,
        ),
        acknowledged(operation, reply) == Err::<(), _>(accepted(operation, reply)->Err_0),
{
}

/// A body that is not JSON ends a call that reads it with an error of the
/// deserialization stage, and the message of that error differs from the
/// message of every failure in transit, of any operation.
pub proof fn malformed_body_is_told_apart(
    operation: Operation,
    style: Style,
    field: Seq<char>,
    required: bool,
    reply: ReplyModel,
    other_operation: Operation,
    other_reply: ReplyModel,
)
    requires
        malformed(reply),
        failed_in_transit(other_reply),
    ensures
        passed_through(operation, style, reply) matches Err(failure) && failure.stage
            == Stage::Deserialization && failure.message != accepted(
            other_operation,
            other_reply,
        )->Err_0.message,
        listed(operation, field, required, reply) == Err::<Seq<Seq<char>>, _>(
            passed_through(operation, style, reply)->Err_0,
        ),
{
    let failure = passed_through(operation, style, reply)->Err_0;
    let rejection = accepted(other_operation, other_reply)->Err_0;
    differing_stages_differ_in_message(operation, failure, other_operation, rejection);
}

/// A body that is JSON of the wrong shape ends a listing with an error of the
/// deserialization stage, and the message of that error differs from the
/// message of every failure in transit, of any operation.
pub proof fn misshapen_listing_is_told_apart(
    operation: Operation,
    field: Seq<char>,
    required: bool,
    reply: ReplyModel,
    other_operation: Operation,
    other_reply: ReplyModel,
)
    requires
        misshapen(reply, field, required),
        failed_in_transit(other_reply),
    ensures
        listed(operation, field, required, reply) matches Err(failure) && failure.stage
            == Stage::Deserialization && failure.message != accepted(
            other_operation,
            other_reply,
        )->Err_0.message,
{
    let response = parsed(reply->Response_body)->Ok_0;
    assert(read(operation, field, required, model(response)) is Err);
    let failure = listed(operation, field, required, reply)->Err_0;
    let rejection = accepted(other_operation, other_reply)->Err_0;
    differing_stages_differ_in_message(operation, failure, other_operation, rejection);
}

/// Whether the parser reads back what the printer writes for a value in a
/// style. It does so for most values; it does not for some numbers with a
/// fraction, which the parser reads with best-effort precision.
pub open spec fn read_back(style: Style, value: serde_json::Value) -> bool {
    match printed(style, value) {
        Ok(text) => parsed(text) == Ok::<serde_json::Value, serde_json::Error>(value),
        Err(_) => false,
    }
}

/// An answer passes through a call unharmed. Where the service sends a value
/// as JSON text, written in one style, and the call hands it on in another,
/// the text handed on is read back as the value that was sent, provided that
/// the parser reads back what the printer writes for this value in both styles.
pub proof fn answer_round_trips(
    operation: Operation,
    sent: Style,
    style: Style,
    status: u16,
    value: serde_json::Value,
)
    requires
        !is_error_status(status),
        read_back(sent, value),
        read_back(style, value),
    ensures
        ({
            let reply = ReplyModel::Response { status, body: printed(sent, value)->Ok_0 };
            &&& passed_through(operation, style, reply) matches Ok(text)
            &&& parsed(text) == Ok::<serde_json::Value, serde_json::Error>(value)
        }),
{
}

/// Two failures built by the crate at different stages have different
/// messages.
proof fn differing_stages_differ_in_message(
    first_operation: Operation,
    first: crate::error::Failure,
    second_operation: Operation,
    second: crate::error::Failure,
)
    requires
        first.stage != second.stage,
        exists|cause: Seq<char>|
            first == crate::error::failure(first_operation, first.stage, cause),
        exists|cause: Seq<char>|
            second == crate::error::failure(second_operation, second.stage, cause),
    ensures
        first.message != second.message,
{
    let first_cause = choose|cause: Seq<char>|
        first == crate::error::failure(first_operation, first.stage, cause);
    let second_cause = choose|cause: Seq<char>|
        second == crate::error::failure(second_operation, second.stage, cause);
    message_tells_stage(
        first_operation,
        first.stage,
        first_cause,
        second_operation,
        second.stage,
        second_cause,
    );
}

} // verus!
