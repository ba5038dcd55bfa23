//! Request-handling core of a serverless HTTP function runtime.
//!
//! The crate receives a single inbound HTTP-shaped event, resolves which
//! registered handler should serve it, enforces an access-control policy
//! before the handler is invoked, and converts the outcome (a success value
//! or a typed failure) into a uniform, client-safe HTTP response.

pub mod auth;
pub mod constants;
pub mod crud;
pub mod errors;
pub mod event;
pub mod request;
pub mod response;
pub mod routing;
pub mod util;

pub use auth::get_sub_of_authenticated_user;
pub use auth::is_admin;
pub use auth::is_authenticated;
pub use crud::CrudIntent;
pub use crud::crud_request_intent;
pub use crud::get_query_param;
pub use errors::FailureBehaviour;
pub use errors::ServerFailure;
pub use errors::critical_failure;
pub use errors::invalid_request_failure;
pub use errors::invalid_route_failure;
pub use errors::unauthorized_failure;
pub use errors::unauthorized_failure_with_debug;
pub use event::ClaimValue;
pub use event::HttpMethod;
pub use event::RequestEvent;
pub use request::RequestMetadata;
pub use request::parse_request_metadata;
pub use request::require_request_body;
pub use response::ErrorResponse;
pub use response::LogLevel;
pub use response::Response;
pub use response::build_error;
pub use response::build_result;
pub use response::build_simple;
pub use response::cors_headers;
pub use routing::AccessLevel;
pub use routing::CrudRoute;
pub use routing::FunctionRoute;
pub use routing::RoutingConfig;
pub use routing::allowed;
pub use routing::resolve_route;
