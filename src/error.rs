//! The one error type of the client, and how the HTTP client's failures and
//! the service's answers map onto it.

use vstd::prelude::*;

verus! {

#[verifier::external_type_specification]
#[verifier::external_body]
pub struct ExHttpError(reqwest::Error);

#[verifier::external_type_specification]
#[verifier::external_body]
pub struct ExHttpResponse(reqwest::Response);

/// What went wrong, in the client's own terms.
#[derive(Clone, Copy, Debug, PartialEq, Eq, Structural)]
pub enum ErrorKind {
    /// The service refused the email and password.
    Unauthorized,
    /// The request could not be sent, or the service answered with an error status.
    RequestFailed,
    /// The service answered with success but with a body that does not decode.
    DecodeFailed,
    /// A timer waits to be applied on the service's site and cannot be started.
    IllegalTimerState,
    /// A list that must hold at least one element came back empty.
    EmptyResource,
}

/// A failure as the presentation layer receives it: its kind, an HTTP-like
/// status code, a message and the text of the underlying cause, if any.
#[derive(Clone, Debug, PartialEq, Eq)]
pub struct ReqError {
    pub kind: ErrorKind,
    pub status: u16,
    pub message: String,
    pub source: Option<String>,
}

/// Status given to a request that the client or the user got wrong.
pub const BAD_REQUEST: u16 = 400;

/// Status given to a failure that carries no status of its own.
pub const INTERNAL_SERVER_ERROR: u16 = 500;

/// The query that the service leaves on the login page's address when it
/// rejects the credentials.
pub const INVALID_LOGIN_QUERY: &'static str = "result=invalid";

/// Message of the error for rejected credentials.
pub const INVALID_LOGIN_MESSAGE: &'static str = "Invalid email or password";

/// Message of the error for a timer that waits to be applied.
pub const TIMER_NEEDS_APPLY_MESSAGE: &'static str =
    "Timer is stopped without applying a work content. Fix it in the stop watch page in the CrowdLog's website.";

/// Message of the error for an empty list of stop watches.
pub const NO_STOP_WATCH_MESSAGE: &'static str = "The service returned no stop watch";

/// Message of the error for an answer that does not fit the call made.
pub const UNEXPECTED_ANSWER_MESSAGE: &'static str = "The service's answer does not fit the call";

/// Message of the error for a start time that is no timestamp.
pub const BAD_START_AT_MESSAGE: &'static str = "The stop watch's start time is not a timestamp";

/// `e` is the error for rejected credentials.
pub open spec fn is_unauthorized(e: ReqError) -> bool {
    &&& e.kind == ErrorKind::Unauthorized
    &&& e.status == BAD_REQUEST
    &&& e.message@ == INVALID_LOGIN_MESSAGE@
    &&& e.source is None
}

/// `e` is the error for a timer that waits to be applied.
pub open spec fn is_illegal_timer_state(e: ReqError) -> bool {
    &&& e.kind == ErrorKind::IllegalTimerState
    &&& e.status == BAD_REQUEST
    &&& e.message@ == TIMER_NEEDS_APPLY_MESSAGE@
    &&& e.source is None
}

/// `e` is the error for an empty list of stop watches.
pub open spec fn is_no_stop_watch(e: ReqError) -> bool {
    &&& e.kind == ErrorKind::EmptyResource
    &&& e.status == INTERNAL_SERVER_ERROR
    &&& e.message@ == NO_STOP_WATCH_MESSAGE@
    &&& e.source is None
}

/// `e` is the error for an answer that does not fit the call made.
pub open spec fn is_unexpected_answer(e: ReqError) -> bool {
    &&& e.kind == ErrorKind::DecodeFailed
    &&& e.status == INTERNAL_SERVER_ERROR
    &&& e.message@ == UNEXPECTED_ANSWER_MESSAGE@
    &&& e.source is None
}

/// `e` is the error for a start time that does not read as a timestamp.
pub open spec fn is_bad_start_at(e: ReqError) -> bool {
    &&& e.kind == ErrorKind::DecodeFailed
    &&& e.status == INTERNAL_SERVER_ERROR
    &&& e.message@ == BAD_START_AT_MESSAGE@
    &&& e.source is None
}

/// Relies on reqwest's `Error::status` and http's `StatusCode::as_u16`: a
/// status code lies in 100..=999.
#[verifier::external_body]
fn http_error_status(err: &reqwest::Error) -> (r: Option<u16>)
    ensures
        r matches Some(code) ==> 100 <= code <= 999,
{
    err.status().map(|code| code.as_u16())
}

/// Relies on reqwest's `Error::is_decode`: whether the body failed to decode.
#[verifier::external_body]
fn http_error_is_decode(err: &reqwest::Error) -> bool {
    err.is_decode()
}

/// Relies on reqwest's `Display` for `Error`: its message.
#[verifier::external_body]
fn http_error_message(err: &reqwest::Error) -> String {
    err.to_string()
}

/// Relies on reqwest's `Error::source`: the message of the underlying cause.
#[verifier::external_body]
fn http_error_source(err: &reqwest::Error) -> Option<String> {
    std::error::Error::source(err).map(|cause| cause.to_string())
}

/// Relies on reqwest's `Response::error_for_status`: the response itself, or
/// an error where its status is a client or server error.
#[verifier::external_body]
fn http_error_for_status(res: reqwest::Response) -> Result<reqwest::Response, reqwest::Error> {
    res.error_for_status()
}

/// Relies on reqwest's `Response::url` and url's `Url::query`: the query of
/// the address that the response finally came from.
#[verifier::external_body]
fn http_response_query(res: &reqwest::Response) -> Option<String> {
    res.url().query().map(|q| q.to_string())
}

impl ReqError {
    /// The error for a failure that the HTTP client reports with the given
    /// status (if any), decode flag, message and cause.
    pub fn from_parts(status: Option<u16>, decode: bool, message: String, source: Option<String>) -> (r: ReqError)
        ensures
            r.kind == (if decode {
                ErrorKind::DecodeFailed
            } else {
                ErrorKind::RequestFailed
            }),
            r.status == (match status {
                Some(code) => code,
                None => INTERNAL_SERVER_ERROR,
            }),
            r.message == message,
            r.source == source,
    {
        let status = match status {
            Some(code) => code,
            None => INTERNAL_SERVER_ERROR,
        };
        let kind = if decode {
            ErrorKind::DecodeFailed
        } else {
            ErrorKind::RequestFailed
        };
        ReqError { kind, status, message, source }
    }

    /// The error for a failure of the HTTP client.
    pub fn from(err: &reqwest::Error) -> (r: ReqError)
        ensures
            r.kind == ErrorKind::RequestFailed || r.kind == ErrorKind::DecodeFailed,
            100 <= r.status <= 999,
    {
        let status = http_error_status(err);
        let decode = http_error_is_decode(err);
        let message = http_error_message(err);
        let source = http_error_source(err);
        ReqError::from_parts(status, decode, message, source)
    }

    /// The error for rejected credentials.
    pub fn unauthorized() -> (r: ReqError)
        ensures
            is_unauthorized(r),
    {
        ReqError {
            kind: ErrorKind::Unauthorized,
            status: BAD_REQUEST,
            message: String::from_str(INVALID_LOGIN_MESSAGE),
            source: None,
        }
    }

    /// The error for starting a timer that waits to be applied.
    pub fn illegal_timer_state() -> (r: ReqError)
        ensures
            is_illegal_timer_state(r),
    {
        ReqError {
            kind: ErrorKind::IllegalTimerState,
            status: BAD_REQUEST,
            message: String::from_str(TIMER_NEEDS_APPLY_MESSAGE),
            source: None,
        }
    }

    /// The error for an empty list of stop watches.
    pub fn no_stop_watch() -> (r: ReqError)
        ensures
            is_no_stop_watch(r),
    {
        ReqError {
            kind: ErrorKind::EmptyResource,
            status: INTERNAL_SERVER_ERROR,
            message: String::from_str(NO_STOP_WATCH_MESSAGE),
            source: None,
        }
    }

    /// The error for an answer that does not fit the call made.
    pub fn unexpected_answer() -> (r: ReqError)
        ensures
            is_unexpected_answer(r),
    {
        ReqError {
            kind: ErrorKind::DecodeFailed,
            status: INTERNAL_SERVER_ERROR,
            message: String::from_str(UNEXPECTED_ANSWER_MESSAGE),
            source: None,
        }
    }

    /// The error for a start time that does not read as a timestamp.
    pub fn bad_start_at() -> (r: ReqError)
        ensures
            is_bad_start_at(r),
    {
        ReqError {
            kind: ErrorKind::DecodeFailed,
            status: INTERNAL_SERVER_ERROR,
            message: String::from_str(BAD_START_AT_MESSAGE),
            source: None,
        }
    }
}

/// Passes a value through, and turns a failure of the HTTP client into the
/// client's error.
pub fn log_if_error<T>(res: Result<T, reqwest::Error>) -> (r: Result<T, ReqError>)
    ensures
        res is Ok <==> r is Ok,
        res matches Ok(v) ==> r == Ok::<T, ReqError>(v),
        r matches Err(e) ==> (e.kind == ErrorKind::RequestFailed || e.kind
            == ErrorKind::DecodeFailed) && 100 <= e.status <= 999,
{
    match res {
        Ok(v) => Ok(v),
        Err(err) => Err(ReqError::from(&err)),
    }
}

/// Checks a response: a failure to send, or an error status, becomes the
/// client's error; a success passes through.
pub fn check_response(res: Result<reqwest::Response, reqwest::Error>) -> (r: Result<reqwest::Response, ReqError>)
    ensures
        res is Err ==> r is Err,
        r matches Err(e) ==> (e.kind == ErrorKind::RequestFailed || e.kind == ErrorKind::DecodeFailed)
            && 100 <= e.status <= 999,
{
    let response = match log_if_error(res) {
        Ok(response) => response,
        Err(e) => return Err(e),
    };
    log_if_error(http_error_for_status(response))
}

/// Decides a login from the query of the address the login page finally
/// came from and from the check of the response: the service marks
/// rejected credentials in that query, not in the status.
pub fn classify_login(query: Option<String>, checked: Result<(), ReqError>) -> (r: Result<(), ReqError>)
    ensures
        (query matches Some(q) && q@ == INVALID_LOGIN_QUERY@) ==> (r matches Err(e) && is_unauthorized(e)),
        !(query matches Some(q) && q@ == INVALID_LOGIN_QUERY@) ==> r == checked,
{
    let invalid = String::from_str(INVALID_LOGIN_QUERY);
    match query {
        Some(q) => {
            if q == invalid {
                Err(ReqError::unauthorized())
            } else {
                checked
            }
        }
        None => checked,
    }
}

/// Decides the outcome of the login request.
pub fn login_result(res: Result<reqwest::Response, reqwest::Error>) -> (r: Result<(), ReqError>)
    ensures
        res is Err ==> (r matches Err(e) && (e.kind == ErrorKind::RequestFailed || e.kind
            == ErrorKind::DecodeFailed) && 100 <= e.status <= 999),
        r matches Err(e) ==> (e.kind == ErrorKind::Unauthorized || e.kind == ErrorKind::RequestFailed
            || e.kind == ErrorKind::DecodeFailed) && 100 <= e.status <= 999,
{
    let query = match &res {
        Ok(response) => http_response_query(response),
        Err(_) => None,
    };
    let checked = match check_response(res) {
        Ok(_) => Ok(()),
        Err(e) => Err(e),
    };
    classify_login(query, checked)
}

} // verus!
