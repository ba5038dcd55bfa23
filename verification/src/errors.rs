//! The closed failure taxonomy. Every failure carries exactly one behaviour
//! tag deciding how it is logged and what, if anything, the caller may see,
//! together with the full human-readable message kept for the server-side
//! log. The translation of a failure into a concrete response lives in
//! `response`.

use vstd::prelude::*;

verus! {

/// How a failure is logged and represented to the caller.
///
/// The `SendFixedMsgToClient` variants carry the fixed text shown to the
/// caller in place of the failure's own message.
#[derive(Clone, PartialEq, Debug)]
pub enum FailureBehaviour {
    ForwardToClient,
    LogWarningForwardToClient,
    LogErrorForwardToClient,
    LogWarningSendFixedMsgToClient(String),
    LogErrorSendFixedMsgToClient(String),
    ReturnInternalServerError,
    ReturnUnauthorized,
}

/// A failure raised by the dispatcher, a handler or a collaborator: a
/// behaviour tag and a human-readable message. The message is always safe
/// to log; whether it is safe to show to the caller is decided by the
/// behaviour alone.
#[derive(Clone, PartialEq, Debug)]
pub struct ServerFailure {
    pub behaviour: FailureBehaviour,
    pub message: String,
}

/// Message of a failure for a request whose shape is invalid.
pub open spec fn invalid_request_message(details: Seq<char>) -> Seq<char> {
    "Request is invalid: "@ + details + "."@
}

/// Message of a failure for a route key that resolves to no registered
/// route; it names the attempted path for diagnostics.
pub open spec fn route_not_found_message(path: Option<String>) -> Seq<char> {
    "Route '"@ + (match path {
        Some(p) => p@,
        None => Seq::<char>::empty(),
    }) + "' does not exist."@
}

/// The fixed message of every unauthorized failure.
pub open spec fn unauthorized_message() -> Seq<char> {
    "Not authorized to access this resource."@
}

/// Unauthorized message extended with server-side debug detail.
pub open spec fn unauthorized_debug_message(debug: Seq<char>) -> Seq<char> {
    "Not authorized to access this resource. ("@ + debug + ")"@
}

/// A client-visible failure for a request whose shape is invalid (missing
/// body, missing required query parameter). Forwarded to the caller and
/// logged as a warning.
pub fn invalid_request_failure(details: &str) -> (r: ServerFailure)
    ensures
        r.behaviour is LogWarningForwardToClient,
        r.message@ == invalid_request_message(details@),
{
    let mut message = String::from_str("Request is invalid: ");
    message.append(details);
    message.append(".");
    ServerFailure { behaviour: FailureBehaviour::LogWarningForwardToClient, message }
}

/// A client-visible failure for a route lookup that found no entry; the
/// message names the attempted path.
pub fn invalid_route_failure(path: &Option<String>) -> (r: ServerFailure)
    ensures
        r.behaviour is LogWarningForwardToClient,
        r.message@ == route_not_found_message(*path),
{
    let mut message = String::from_str("Route '");
    match path {
        Some(p) => message.append(p.as_str()),
        None => (),
    }
    message.append("' does not exist.");
    ServerFailure { behaviour: FailureBehaviour::LogWarningForwardToClient, message }
}

/// A sensitive failure for a request that is not allowed to reach its
/// route. Only a fixed generic text ever reaches the caller.
pub fn unauthorized_failure() -> (r: ServerFailure)
    ensures
        r.behaviour is ReturnUnauthorized,
        r.message@ == unauthorized_message(),
{
    ServerFailure {
        behaviour: FailureBehaviour::ReturnUnauthorized,
        message: String::from_str("Not authorized to access this resource."),
    }
}

/// An unauthorized failure carrying extra server-side detail in its logged
/// message; the caller still sees only the fixed generic text.
pub fn unauthorized_failure_with_debug(debug: &str) -> (r: ServerFailure)
    ensures
        r.behaviour is ReturnUnauthorized,
        r.message@ == unauthorized_debug_message(debug@),
{
    let mut message = String::from_str("Not authorized to access this resource. (");
    message.append(debug);
    message.append(")");
    ServerFailure { behaviour: FailureBehaviour::ReturnUnauthorized, message }
}

/// An internal failure: an invariant the server relies on was broken. The
/// message is logged and never shown to the caller.
pub fn critical_failure(details: &str) -> (r: ServerFailure)
    ensures
        r.behaviour is ReturnInternalServerError,
        r.message@ == details@,
{
    ServerFailure {
        behaviour: FailureBehaviour::ReturnInternalServerError,
        message: String::from_str(details),
    }
}

} // verus!
