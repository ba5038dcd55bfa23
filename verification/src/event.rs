//! The inbound HTTP-shaped event, reduced to the plain values that the
//! routing, authentication and request-parsing logic reads: the method, the
//! path and its route-key segment, the optional body, the query parameters,
//! and the authorizer's claims block.

use vstd::prelude::*;

verus! {

/// The HTTP method of an inbound event. Methods outside the four that
/// routing understands are collapsed into `Other`.
#[derive(Clone, Copy, PartialEq, Eq, Structural, Debug)]
pub enum HttpMethod {
    Get,
    Post,
    Put,
    Delete,
    Other,
}

/// One value inside the authorizer's claims block. The logic only ever
/// distinguishes a string value from a value of any other JSON type.
#[derive(Clone, PartialEq, Debug)]
pub enum ClaimValue {
    Text(String),
    Other,
}

/// An inbound event. `route_key` is the single path segment that names the
/// registered route; `claims` is `None` when the authorizer context carries
/// no claims block at all, and an empty list when it carries one that holds
/// no fields the logic can read.
#[derive(Clone, Debug)]
pub struct RequestEvent {
    pub method: HttpMethod,
    pub path: Option<String>,
    pub route_key: Option<String>,
    pub body: Option<String>,
    pub query_params: Vec<(String, String)>,
    pub claims: Option<Vec<(String, ClaimValue)>>,
}

} // verus!
