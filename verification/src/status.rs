//! Classes of HTTP status codes, as the retry engine tells them apart.

use vstd::prelude::*;

verus! {

/// What a status code means to the retry engine.
#[derive(Clone, Copy, Debug, PartialEq, Eq, Structural)]
pub enum StatusClass {
    /// 2xx: the response is what the caller asked for.
    Success,
    /// 4xx: the caller has to change the request; sending it again cannot help.
    ClientError,
    /// 5xx: the server failed; sending the request again may help.
    ServerError,
    /// Any other code: not a success, and nothing says that a retry would help.
    Other,
}

/// The codes that name an HTTP status at all: three decimal digits, the first not zero.
pub open spec fn is_status_code(status: u16) -> bool {
    100 <= status <= 999
}

/// The success range.
pub open spec fn is_success(status: u16) -> bool {
    200 <= status <= 299
}

/// The client-error range.
pub open spec fn is_client_error(status: u16) -> bool {
    400 <= status <= 499
}

/// The server-error range.
pub open spec fn is_server_error(status: u16) -> bool {
    500 <= status <= 599
}

/// The class of a status code.
pub open spec fn status_class(status: u16) -> StatusClass {
    if is_success(status) {
        StatusClass::Success
    } else if is_client_error(status) {
        StatusClass::ClientError
    } else if is_server_error(status) {
        StatusClass::ServerError
    } else {
        StatusClass::Other
    }
}

/// Calls `reqwest::StatusCode::is_success` on the status code made of `status` by
/// `reqwest::StatusCode::from_u16`, which accepts every code from 100 to 999.
/// Believed, not proved: the answer is `true` exactly for the codes 200 to 299.
#[verifier::external_body]
fn code_is_success(status: u16) -> (yes: bool)
    requires
        is_status_code(status),
    ensures
        yes == is_success(status),
{
    match reqwest::StatusCode::from_u16(status) {
        Ok(code) => code.is_success(),
        Err(_) => false,
    }
}

/// Calls `reqwest::StatusCode::is_client_error` on the status code made of `status`
/// by `reqwest::StatusCode::from_u16`, which accepts every code from 100 to 999.
/// Believed, not proved: the answer is `true` exactly for the codes 400 to 499.
#[verifier::external_body]
fn code_is_client_error(status: u16) -> (yes: bool)
    requires
        is_status_code(status),
    ensures
        yes == is_client_error(status),
{
    match reqwest::StatusCode::from_u16(status) {
        Ok(code) => code.is_client_error(),
        Err(_) => false,
    }
}

/// Calls `reqwest::StatusCode::is_server_error` on the status code made of `status`
/// by `reqwest::StatusCode::from_u16`, which accepts every code from 100 to 999.
/// Believed, not proved: the answer is `true` exactly for the codes 500 to 599.
#[verifier::external_body]
fn code_is_server_error(status: u16) -> (yes: bool)
    requires
        is_status_code(status),
    ensures
        yes == is_server_error(status),
{
    match reqwest::StatusCode::from_u16(status) {
        Ok(code) => code.is_server_error(),
        Err(_) => false,
    }
}

/// Classifies a status code. A number that is no status code at all is
/// `StatusClass::Other`, like every code outside the three named ranges.
pub fn classify(status: u16) -> (class: StatusClass)
    ensures
        class == status_class(status),
{
    if status < 100 || status > 999 {
        StatusClass::Other
    } else if code_is_success(status) {
        StatusClass::Success
    } else if code_is_client_error(status) {
        StatusClass::ClientError
    } else if code_is_server_error(status) {
        StatusClass::ServerError
    } else {
        StatusClass::Other
    }
}

} // verus!
