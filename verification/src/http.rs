//! HTTP client errors and the classification of service responses.

use vstd::prelude::*;

verus! {

/// A failure of an HTTP call against the service.
#[derive(Debug, Clone)]
pub enum ClientError {
    /// The service answered with a failing status not covered by a kind of
    /// its own; the message is what the response body said.
    ApiError { status: u16, message: String },
    /// The resource does not exist.
    NotFound,
    /// The caller is not authenticated.
    Unauthorized,
    /// The caller is authenticated but not allowed.
    Forbidden,
    /// The service failed internally.
    InternalServerError,
    /// A failure without a status: the request never got an answer.
    UnknownError(String),
    /// A login answer carried no session cookie.
    BadSessionId,
}

/// Whether an HTTP status reports success.
pub open spec fn is_success_status(status: int) -> bool {
    200 <= status < 300
}

/// Classify a service response by its status: success passes, the statuses
/// the client distinguishes become their own error kinds, and every other
/// failing status carries the response body's message.
pub fn map_response_status(status: u16, message: String) -> (r: Result<(), ClientError>)
    ensures
        is_success_status(status as int) ==> r == Ok::<(), ClientError>(()),
        !is_success_status(status as int) ==> match status {
            404u16 => r == Err::<(), _>(ClientError::NotFound),
            401u16 => r == Err::<(), _>(ClientError::Unauthorized),
            403u16 => r == Err::<(), _>(ClientError::Forbidden),
            500u16 => r == Err::<(), _>(ClientError::InternalServerError),
            _ => r == Err::<(), _>(ClientError::ApiError { status, message }),
        },
{
    if 200 <= status && status < 300 {
        return Ok(());
    }
    match status {
        404u16 => Err(ClientError::NotFound),
        401u16 => Err(ClientError::Unauthorized),
        403u16 => Err(ClientError::Forbidden),
        500u16 => Err(ClientError::InternalServerError),
        _ => Err(ClientError::ApiError { status, message }),
    }
}

/// Wrap a transport-level failure: one that carries a status becomes an
/// `ApiError` with that status, one without becomes an `UnknownError`; either
/// way the failure's message is kept.
pub fn wrap_transport_failure(status: Option<u16>, message: String) -> (e: ClientError)
    ensures
        match status {
            Some(s) => e == (ClientError::ApiError { status: s, message }),
            None => e == ClientError::UnknownError(message),
        },
{
    match status {
        Some(s) => ClientError::ApiError { status: s, message },
        None => ClientError::UnknownError(message),
    }
}

/// The session a login answer grants: the value of its session cookie, or
/// `BadSessionId` when the answer carried none.
pub fn extract_session_cookie(cookie: Option<String>) -> (r: Result<String, ClientError>)
    ensures
        match cookie {
            Some(c) => r == Ok::<_, ClientError>(c),
            None => r == Err::<String, _>(ClientError::BadSessionId),
        },
{
    match cookie {
        Some(c) => Ok(c),
        None => Err(ClientError::BadSessionId),
    }
}

} // verus!
