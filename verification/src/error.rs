//! The library's error type and the classification of HTTP failures.
use vstd::prelude::*;
use vstd::std_specs::convert::FromSpecImpl;

verus! {

/// The library's `Result`.
pub type Result<T> = core::result::Result<T, SdkError>;

/// Everything that can go wrong while talking to the Todoist API or
/// interpreting what it returned.
#[derive(Debug)]
pub enum SdkError {
    /// Unable to retrieve the API key.
    KeyNotProvided,
    /// Too many requests were made.
    RateLimited(String),
    /// The credentials were not accepted.
    AuthenticationError(String),
    /// The request was not authorized.
    AuthorizationError(String),
    /// The requested resource does not exist.
    NotFound(String),
    /// The request was rejected as invalid.
    ValidationError(String),
    /// The server failed, with the given status.
    ServerError { status: u16, message: String },
    /// The request never got an answer.
    NetworkError(String),
    /// JSON could not be parsed.
    ParseError(serde_json::Error),
    /// An endpoint answered with nothing.
    EmptyResponse { endpoint: String, message: String },
    /// A date string could not be parsed.
    InvalidDate(chrono::ParseError),
    /// A time zone name could not be parsed.
    InvalidTimezone(chrono_tz::ParseError),
    /// Any other failure.
    Generic(String),
}

/// `429 Too Many Requests`.
pub const TOO_MANY_REQUESTS: u16 = 429;
/// `401 Unauthorized`.
pub const UNAUTHORIZED: u16 = 401;
/// `403 Forbidden`.
pub const FORBIDDEN: u16 = 403;
/// `404 Not Found`.
pub const NOT_FOUND: u16 = 404;
/// `400 Bad Request`.
pub const BAD_REQUEST: u16 = 400;
/// `422 Unprocessable Entity`.
pub const UNPROCESSABLE_ENTITY: u16 = 422;

/// Whether a status is a server error (`500` to `599`).
pub open spec fn is_server_error(status: u16) -> bool {
    500 <= status < 600
}

/// How a failed HTTP exchange is classified, from the response status (if a
/// response arrived at all) and the failure's message.
pub open spec fn http_failure(status: Option<u16>, message: String) -> SdkError {
    match status {
        None => SdkError::NetworkError(message),
        Some(s) => if s == UNAUTHORIZED {
            SdkError::AuthenticationError(message)
        } else if s == FORBIDDEN {
            SdkError::AuthorizationError(message)
        } else if s == NOT_FOUND {
            SdkError::NotFound(message)
        } else if s == TOO_MANY_REQUESTS {
            SdkError::RateLimited(message)
        } else if s == BAD_REQUEST || s == UNPROCESSABLE_ENTITY {
            SdkError::ValidationError(message)
        } else if is_server_error(s) {
            SdkError::ServerError { status: s, message }
        } else {
            SdkError::Generic(message)
        },
    }
}

/// How each HTTP outcome is classified, keeping the failure's message: no
/// response is a network error; 401 an authentication error; 403 an
/// authorization error; 404 not found; 429 rate limited; 400 and 422 a
/// validation error; every status from 500 to 599 a server error carrying
/// that status; anything else a generic error.
pub proof fn lemma_http_failure_classes(status: Option<u16>, message: String)
    ensures
        status is None ==> http_failure(status, message) == SdkError::NetworkError(message),
        status == Some(401u16) ==> http_failure(status, message) == SdkError::AuthenticationError(
            message,
        ),
        status == Some(403u16) ==> http_failure(status, message) == SdkError::AuthorizationError(
            message,
        ),
        status == Some(404u16) ==> http_failure(status, message) == SdkError::NotFound(message),
        status == Some(429u16) ==> http_failure(status, message) == SdkError::RateLimited(message),
        status == Some(400u16) || status == Some(422u16) ==> http_failure(status, message)
            == SdkError::ValidationError(message),
        forall|s: u16|
            500 <= s <= 599 && status == Some(s) ==> http_failure(status, message)
                == (SdkError::ServerError { status: s, message }),
        forall|s: u16|
            status == Some(s) && !(500 <= s <= 599) && s != 400 && s != 401 && s != 403 && s != 404
                && s != 422 && s != 429 ==> http_failure(status, message) == SdkError::Generic(
                message,
            ),
{
}

impl SdkError {
    /// Classifies a failed HTTP exchange: `None` when no response arrived
    /// (a network failure), otherwise the response's status code.
    pub fn from_http_status(status: Option<u16>, message: String) -> (e: SdkError)
        ensures
            e == http_failure(status, message),
    {
        match status {
            None => SdkError::NetworkError(message),
            Some(s) => {
                if s == UNAUTHORIZED {
                    SdkError::AuthenticationError(message)
                } else if s == FORBIDDEN {
                    SdkError::AuthorizationError(message)
                } else if s == NOT_FOUND {
                    SdkError::NotFound(message)
                } else if s == TOO_MANY_REQUESTS {
                    SdkError::RateLimited(message)
                } else if s == BAD_REQUEST || s == UNPROCESSABLE_ENTITY {
                    SdkError::ValidationError(message)
                } else if 500 <= s && s < 600 {
                    SdkError::ServerError { status: s, message }
                } else {
                    SdkError::Generic(message)
                }
            },
        }
    }
}

/// The status code that `reqwest::Error::status` reports, as a number
/// (`StatusCode::as_u16`); `None` when the error did not come from a
/// response. It is read from the error's own kind.
pub uninterp spec fn reqwest_error_status(e: reqwest::Error) -> Option<u16>;

/// The text that `reqwest::Error`'s `Display` writes for an error.
pub uninterp spec fn reqwest_error_message(e: reqwest::Error) -> Seq<char>;

/// `reqwest::Error::status`, with the status as a number
/// (`StatusCode::as_u16`). Claims that the result is the error's status.
#[verifier::external_body]
fn http_error_status(e: &reqwest::Error) -> (r: Option<u16>)
    ensures
        r == reqwest_error_status(*e),
{
    match e.status() {
        Some(s) => Some(s.as_u16()),
        None => None,
    }
}

/// The error's message (`reqwest::Error`'s `Display`, through `to_string`).
/// Claims that the result is that text.
#[verifier::external_body]
fn http_error_message(e: &reqwest::Error) -> (r: String)
    ensures
        r@ == reqwest_error_message(*e),
{
    e.to_string()
}

impl From<reqwest::Error> for SdkError {
    /// Classifies the failure by the status code of the response it came
    /// from, keeping the error's message.
    fn from(value: reqwest::Error) -> (e: Self)
        ensures
            exists|message: String|
                message@ == reqwest_error_message(value) && e == http_failure(
                    reqwest_error_status(value),
                    message,
                ),
    {
        let status = http_error_status(&value);
        let message = http_error_message(&value);
        SdkError::from_http_status(status, message)
    }
}

impl FromSpecImpl<reqwest::Error> for SdkError {
    /// The message is a `String` built at run time, so no spec value of it
    /// can be written here; the postcondition of
    /// `from` above states what is known.
    open spec fn obeys_from_spec() -> bool {
        false
    }

    open spec fn from_spec(v: reqwest::Error) -> SdkError {
        vstd::pervasive::arbitrary()
    }
}

impl From<serde_json::Error> for SdkError {
    fn from(value: serde_json::Error) -> (e: Self) {
        SdkError::ParseError(value)
    }
}

impl FromSpecImpl<serde_json::Error> for SdkError {
    open spec fn obeys_from_spec() -> bool {
        true
    }

    open spec fn from_spec(v: serde_json::Error) -> SdkError {
        SdkError::ParseError(v)
    }
}

impl From<chrono::ParseError> for SdkError {
    fn from(value: chrono::ParseError) -> (e: Self) {
        SdkError::InvalidDate(value)
    }
}

impl FromSpecImpl<chrono::ParseError> for SdkError {
    open spec fn obeys_from_spec() -> bool {
        true
    }

    open spec fn from_spec(v: chrono::ParseError) -> SdkError {
        SdkError::InvalidDate(v)
    }
}

impl From<chrono_tz::ParseError> for SdkError {
    fn from(value: chrono_tz::ParseError) -> (e: Self) {
        SdkError::InvalidTimezone(value)
    }
}

impl FromSpecImpl<chrono_tz::ParseError> for SdkError {
    open spec fn obeys_from_spec() -> bool {
        true
    }

    open spec fn from_spec(v: chrono_tz::ParseError) -> SdkError {
        SdkError::InvalidTimezone(v)
    }
}

} // verus!
