//! Request-intent extraction for resource-style routes: which of the four
//! store operations an event asks for, with which key or payload. The
//! store itself is an external collaborator; this module only decides and
//! verifies the intent.

use vstd::prelude::*;

use crate::errors::ServerFailure;
use crate::errors::critical_failure;
use crate::errors::invalid_request_failure;
use crate::errors::invalid_request_message;
use crate::event::HttpMethod;
use crate::event::RequestEvent;
use crate::request::require_request_body;
use crate::util::lookup;
use crate::util::spec_lookup;

verus! {

/// What a resource-style request asks of the item store: a creation under
/// a parent key with a payload, a read or a deletion of one key, or an
/// update described wholly by the payload.
#[derive(Clone, PartialEq, Debug)]
pub enum CrudIntent {
    Create { parent_id: String, body: String },
    Read { id: String },
    Update { body: String },
    Delete { id: String },
}

/// The detail of the failure raised for a missing required query
/// parameter.
pub open spec fn query_param_required_details(param: Seq<char>) -> Seq<char> {
    "query parameter "@ + param + " is required"@
}

/// The first value of a required query parameter, or the client-visible
/// failure naming it when the event carries none.
pub fn get_query_param(event: &RequestEvent, param: &str) -> (r: Result<String, ServerFailure>)
    ensures
        match r {
            Ok(value) => spec_lookup(event.query_params@, param@) == Some(value),
            Err(f) => spec_lookup(event.query_params@, param@) is None && f.behaviour
                is LogWarningForwardToClient && f.message@ == invalid_request_message(
                query_param_required_details(param@),
            ),
        },
{
    match lookup(&event.query_params, param) {
        Some(value) => Ok(value.clone()),
        None => {
            let mut details = String::from_str("query parameter ");
            details.append(param);
            details.append(" is required");
            Err(invalid_request_failure(details.as_str()))
        },
    }
}

/// Extracts and checks the intent of a resource-style request: the HTTP
/// verb picks the operation (create, read, update or delete), the query
/// string must name the operation's key, and the operations that carry a
/// payload must have a body. Any other verb on a resource route is an
/// internal error, as routing never admits one.
pub fn crud_request_intent(event: &RequestEvent) -> (r: Result<CrudIntent, ServerFailure>)
    ensures
        match event.method {
            HttpMethod::Post => match r {
                Ok(intent) => intent matches CrudIntent::Create { parent_id, body }
                    && spec_lookup(event.query_params@, "parent_id"@) == Some(parent_id)
                    && event.body == Some(body),
                Err(f) => if spec_lookup(event.query_params@, "parent_id"@) is None {
                    f.behaviour is LogWarningForwardToClient && f.message@
                        == invalid_request_message(query_param_required_details("parent_id"@))
                } else {
                    event.body is None && f.behaviour is LogWarningForwardToClient && f.message@
                        == invalid_request_message("missing request body"@)
                },
            },
            HttpMethod::Get => match r {
                Ok(intent) => intent matches CrudIntent::Read { id } && spec_lookup(
                    event.query_params@,
                    "id"@,
                ) == Some(id),
                Err(f) => spec_lookup(event.query_params@, "id"@) is None && f.behaviour
                    is LogWarningForwardToClient && f.message@ == invalid_request_message(
                    query_param_required_details("id"@),
                ),
            },
            HttpMethod::Put => match r {
                Ok(intent) => intent matches CrudIntent::Update { body } && event.body == Some(
                    body,
                ),
                Err(f) => event.body is None && f.behaviour is LogWarningForwardToClient
                    && f.message@ == invalid_request_message("missing request body"@),
            },
            HttpMethod::Delete => match r {
                Ok(intent) => intent matches CrudIntent::Delete { id } && spec_lookup(
                    event.query_params@,
                    "id"@,
                ) == Some(id),
                Err(f) => spec_lookup(event.query_params@, "id"@) is None && f.behaviour
                    is LogWarningForwardToClient && f.message@ == invalid_request_message(
                    query_param_required_details("id"@),
                ),
            },
            HttpMethod::Other => r matches Err(f) && f.behaviour is ReturnInternalServerError
                && f.message@ == "CRUD routes should only be called with POST, GET, PUT, or DELETE"@,
        },
{
    match event.method {
        HttpMethod::Post => {
            let parent_id = match get_query_param(event, "parent_id") {
                Ok(value) => value,
                Err(f) => {
                    return Err(f);
                },
            };
            let body = match require_request_body(event) {
                Ok(body) => body.clone(),
                Err(f) => {
                    return Err(f);
                },
            };
            Ok(CrudIntent::Create { parent_id, body })
        },
        HttpMethod::Get => {
            let id = match get_query_param(event, "id") {
                Ok(value) => value,
                Err(f) => {
                    return Err(f);
                },
            };
            Ok(CrudIntent::Read { id })
        },
        HttpMethod::Put => {
            let body = match require_request_body(event) {
                Ok(body) => body.clone(),
                Err(f) => {
                    return Err(f);
                },
            };
            Ok(CrudIntent::Update { body })
        },
        HttpMethod::Delete => {
            let id = match get_query_param(event, "id") {
                Ok(value) => value,
                Err(f) => {
                    return Err(f);
                },
            };
            Ok(CrudIntent::Delete { id })
        },
        HttpMethod::Other => Err(
            critical_failure("CRUD routes should only be called with POST, GET, PUT, or DELETE"),
        ),
    }
}

} // verus!
