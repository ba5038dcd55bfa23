//! The fixed plain-text bodies of responses whose detail must never reach
//! the caller.

use vstd::prelude::*;

verus! {

/// The generic apology text sent with every internal server error.
pub open spec fn spec_internal_server_error_msg() -> Seq<char> {
    "Unfortunately, an unexpected server error occurred. Please try updating to the latest version.\n\nIf the error persists, please contact the developer. We are sorry for the inconvenience. :("@
}

/// The generic text sent with every unauthorized response.
pub open spec fn spec_unauthorized_error_msg() -> Seq<char> {
    "Unfortunately, the request was not properly authenticated. Please ensure you are logged in with a valid account, have access to the requested resource, and are using the latest version of the application.\n\nIf the error persists, please contact the developer. We are sorry for the inconvenience. :("@
}

/// The generic apology text sent with every internal server error.
pub fn internal_server_error_msg() -> (r: &'static str)
    ensures
        r@ == spec_internal_server_error_msg(),
{
    "Unfortunately, an unexpected server error occurred. Please try updating to the latest version.\n\nIf the error persists, please contact the developer. We are sorry for the inconvenience. :("
}

/// The generic text sent with every unauthorized response.
pub fn unauthorized_error_msg() -> (r: &'static str)
    ensures
        r@ == spec_unauthorized_error_msg(),
{
    "Unfortunately, the request was not properly authenticated. Please ensure you are logged in with a valid account, have access to the requested resource, and are using the latest version of the application.\n\nIf the error persists, please contact the developer. We are sorry for the inconvenience. :("
}

} // verus!
