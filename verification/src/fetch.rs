//! How a finished HTTP exchange is turned into a component message.
use vstd::prelude::*;

verus! {

/// An HTTP status code counts as success when it lies in `200..=299`.
pub open spec fn is_success_code(code: u16) -> bool {
    200 <= code && code < 300
}

/// Whether `code` is `401 Unauthorized`.
pub open spec fn is_unauthorized_code(code: u16) -> bool {
    code == 401
}

/// Calls `http::StatusCode::from_u16` and `StatusCode::is_success` on the result.
/// Claimed: `from_u16` accepts exactly the codes in `100..1000`, and `is_success`
/// holds exactly for `200..300`; a code that `from_u16` refuses is no success.
#[verifier::external_body]
fn status_is_success(code: u16) -> (b: bool)
    ensures
        b == is_success_code(code),
{
    match http::StatusCode::from_u16(code) {
        Ok(status) => status.is_success(),
        Err(_) => false,
    }
}

/// Compares `http::StatusCode::from_u16(code)` with `http::StatusCode::UNAUTHORIZED`.
/// Claimed: they are equal exactly when `code` is 401, the number of that constant;
/// a code that `from_u16` refuses equals no status.
#[verifier::external_body]
fn status_is_unauthorized(code: u16) -> (b: bool)
    ensures
        b == is_unauthorized_code(code),
{
    match http::StatusCode::from_u16(code) {
        Ok(status) => status == http::StatusCode::UNAUTHORIZED,
        Err(_) => false,
    }
}

/// Whether a response with status `code` succeeded.
pub fn is_success(code: u16) -> (b: bool)
    ensures
        b == is_success_code(code),
{
    status_is_success(code)
}

/// Whether a response with status `code` says that the credentials were refused.
pub fn is_unauthorized(code: u16) -> (b: bool)
    ensures
        b == is_unauthorized_code(code),
{
    status_is_unauthorized(code)
}

/// The body of a response, kept only when its status is a success and the body
/// could be decoded.
pub fn body_on_success<T>(code: u16, body: Option<T>) -> (r: Option<T>)
    ensures
        r == (if is_success_code(code) { body } else { None::<T> }),
{
    if is_success(code) {
        body
    } else {
        None
    }
}

} // verus!
