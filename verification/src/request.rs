//! Request-level helpers: the identity summary derived once per request,
//! and the body-presence gate that payload parsing rests on.

use vstd::prelude::*;

use crate::auth::is_admin;
use crate::auth::is_authenticated;
use crate::auth::get_sub_of_authenticated_user;
use crate::auth::spec_claims_lookup;
use crate::auth::spec_is_admin;
use crate::auth::spec_is_authenticated;
use crate::errors::ServerFailure;
use crate::errors::invalid_request_failure;
use crate::errors::invalid_request_message;
use crate::event::ClaimValue;
use crate::event::RequestEvent;
use crate::util::spec_lookup;

verus! {

/// The identity summary of one request: derived once, immutable, never
/// persisted. The subject is present exactly when the request is
/// authenticated.
#[derive(Clone, PartialEq, Debug)]
pub struct RequestMetadata {
    pub is_authenticated: bool,
    pub is_admin: bool,
    pub user_sub: Option<String>,
}

/// The authorizer marked the request authenticated but populated no string
/// subject field: an internal inconsistency, never a normal input.
pub open spec fn spec_sub_inconsistent(e: RequestEvent) -> bool {
    spec_is_authenticated(e) && !(spec_claims_lookup(e, "sub"@) matches Some(
        ClaimValue::Text(_),
    ))
}

/// What a correctly extracted identity summary says of its event.
pub open spec fn spec_metadata_ok(e: RequestEvent, m: RequestMetadata) -> bool {
    &&& m.is_authenticated == spec_is_authenticated(e)
    &&& m.is_admin == spec_is_admin(e)
    &&& match m.user_sub {
        Some(sub) => spec_is_authenticated(e) && spec_claims_lookup(e, "sub"@) == Some(
            ClaimValue::Text(sub),
        ),
        None => !spec_is_authenticated(e),
    }
}

/// The internal failure reported for an authenticated event without a
/// string subject field.
pub open spec fn spec_sub_failure(e: RequestEvent, f: ServerFailure) -> bool {
    match e.claims {
        Some(entries) => match spec_lookup(entries@, "sub"@) {
            Some(v) => v is Other && f.behaviour is ReturnInternalServerError && f.message@
                == "authorizer claims sub was not a string"@,
            None => f.behaviour is ReturnInternalServerError && f.message@
                == "authorizer claims did not contain sub"@,
        },
        None => false,
    }
}

/// Derives the identity summary of an event. Total but for one case: an
/// event the authorizer marked authenticated without populating a string
/// subject is reported as an internal failure.
pub fn parse_request_metadata(event: &RequestEvent) -> (r: Result<RequestMetadata, ServerFailure>)
    ensures
        match r {
            Ok(m) => !spec_sub_inconsistent(*event) && spec_metadata_ok(*event, m),
            Err(f) => spec_sub_inconsistent(*event) && spec_sub_failure(*event, f),
        },
{
    let authenticated = is_authenticated(event);
    let user_sub = if authenticated {
        match get_sub_of_authenticated_user(event) {
            Ok(sub) => Some(sub),
            Err(f) => {
                return Err(f);
            },
        }
    } else {
        None
    };
    Ok(RequestMetadata { is_authenticated: authenticated, is_admin: is_admin(event), user_sub })
}

/// The body-presence gate of payload parsing: hands the body back when the
/// event carries one, and raises the client-visible parsing failure when
/// it does not.
pub fn require_request_body(event: &RequestEvent) -> (r: Result<&String, ServerFailure>)
    ensures
        match r {
            Ok(body) => event.body == Some(*body),
            Err(f) => event.body is None && f.behaviour is LogWarningForwardToClient
                && f.message@ == invalid_request_message("missing request body"@),
        },
{
    match &event.body {
        Some(body) => Ok(body),
        None => Err(invalid_request_failure("missing request body")),
    }
}

/// Law: an event without an authorizer claims block yields the fully
/// anonymous identity — not authenticated, not admin, and with no subject.
pub proof fn lemma_no_claims_metadata(event: RequestEvent, m: RequestMetadata)
    requires
        event.claims is None,
        spec_metadata_ok(event, m),
    ensures
        !m.is_authenticated,
        !m.is_admin,
        m.user_sub is None,
{
}

} // verus!
