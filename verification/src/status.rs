//! Status classes of a health-check response.

use vstd::prelude::*;

verus! {

/// The success class of response status codes: 200 to 299.
pub open spec fn in_success_class(code: u16) -> bool {
    200 <= code < 300
}

/// The redirection class of response status codes: 300 to 399.
pub open spec fn in_redirection_class(code: u16) -> bool {
    300 <= code < 400
}

/// The success predicate of the readiness gate: a response counts as healthy
/// when its status is in the success or the redirection class.
pub open spec fn signals_ready(code: u16) -> bool {
    in_success_class(code) || in_redirection_class(code)
}

/// Trusted: calls `reqwest::StatusCode::is_success`, which tests whether the
/// code lies in `200..300`. A number that `StatusCode::from_u16` rejects
/// (below 100 or above 999) is no status code and so in no class.
#[verifier::external_body]
fn status_is_success(code: u16) -> (r: bool)
    ensures
        r == in_success_class(code),
{
    match reqwest::StatusCode::from_u16(code) {
        Ok(status) => status.is_success(),
        Err(_) => false,
    }
}

/// Trusted: calls `reqwest::StatusCode::is_redirection`, which tests whether
/// the code lies in `300..400`. A number that `StatusCode::from_u16` rejects
/// (below 100 or above 999) is no status code and so in no class.
#[verifier::external_body]
fn status_is_redirection(code: u16) -> (r: bool)
    ensures
        r == in_redirection_class(code),
{
    match reqwest::StatusCode::from_u16(code) {
        Ok(status) => status.is_redirection(),
        Err(_) => false,
    }
}

/// Decides whether a response with status `code` shows the service ready.
pub fn is_ready_status(code: u16) -> (ready: bool)
    ensures
        ready == signals_ready(code),
{
    status_is_success(code) || status_is_redirection(code)
}

} // verus!
