//! The error taxonomy of the library, and the status envelope that the
//! service returns beside every non-success answer.

use vstd::prelude::*;
use vstd::string::StringExecFns;
use crate::json::{JsonValue, spec_get, spec_get_str, spec_get_i32};

verus! {

/// Status message returned by every API request.
#[derive(Debug, Clone, PartialEq, Eq)]
pub struct Status {
    pub code: Option<i32>,
    pub error: String,
}

/// The mathematical view of a [`Status`]: the error text as a sequence.
pub struct StatusV {
    pub code: Option<i32>,
    pub error: Seq<char>,
}

impl View for Status {
    type V = StatusV;

    open spec fn view(&self) -> StatusV {
        StatusV { code: self.code, error: self.error@ }
    }
}

/// The error type used by this library.
#[derive(Debug, Clone, PartialEq, Eq)]
pub enum StreakError {
    /// There was an error with the request.
    BadRequest(Status),
    /// Either the API key or the verification token was invalid.
    UnauthorizedKey(Status),
    /// This account does not have access to the requested service.
    Forbidden(Status),
    /// The requested resource could not be found.
    ResourceNotFound(Status),
    /// There was an internal server error.
    InternalServerError(Status),
    /// The service was unavailable. Only returned after the configured
    /// `retry_count` retries were spent.
    ServiceUnavailable,
    /// There was an IO error.
    IoError(String),
    /// There was an error deserializing a json object.
    JsonParseError(String),
    /// We made a request the server didn't like.
    RequestError(String),
    /// We made a request with a bad url.
    RequestUrlError(String),
    /// We made a request whose parameters would not encode.
    RequestUrlEncodeError(String),
    /// The server gave an invalid response.
    InvalidServerResponse,
    /// The server answered a JSON body under a status code outside the
    /// service's documented set.
    UnexpectedStatus(u16),
}

/// The mathematical view of a [`StreakError`]: texts as sequences.
pub enum ErrV {
    BadRequest(StatusV),
    UnauthorizedKey(StatusV),
    Forbidden(StatusV),
    ResourceNotFound(StatusV),
    InternalServerError(StatusV),
    ServiceUnavailable,
    IoError(Seq<char>),
    JsonParseError(Seq<char>),
    RequestError(Seq<char>),
    RequestUrlError(Seq<char>),
    RequestUrlEncodeError(Seq<char>),
    InvalidServerResponse,
    UnexpectedStatus(u16),
}

impl View for StreakError {
    type V = ErrV;

    open spec fn view(&self) -> ErrV {
        match self {
            StreakError::BadRequest(st) => ErrV::BadRequest(st@),
            StreakError::UnauthorizedKey(st) => ErrV::UnauthorizedKey(st@),
            StreakError::Forbidden(st) => ErrV::Forbidden(st@),
            StreakError::ResourceNotFound(st) => ErrV::ResourceNotFound(st@),
            StreakError::InternalServerError(st) => ErrV::InternalServerError(st@),
            StreakError::ServiceUnavailable => ErrV::ServiceUnavailable,
            StreakError::IoError(s) => ErrV::IoError(s@),
            StreakError::JsonParseError(s) => ErrV::JsonParseError(s@),
            StreakError::RequestError(s) => ErrV::RequestError(s@),
            StreakError::RequestUrlError(s) => ErrV::RequestUrlError(s@),
            StreakError::RequestUrlEncodeError(s) => ErrV::RequestUrlEncodeError(s@),
            StreakError::InvalidServerResponse => ErrV::InvalidServerResponse,
            StreakError::UnexpectedStatus(c) => ErrV::UnexpectedStatus(*c),
        }
    }
}

impl StreakError {
    /// The short, fixed name of the error class.
    pub open spec fn spec_description(&self) -> Seq<char> {
        match self {
            StreakError::BadRequest(_) => "400 bad request"@,
            StreakError::UnauthorizedKey(_) => "401 unauthorized"@,
            StreakError::Forbidden(_) => "403 forbidden"@,
            StreakError::ResourceNotFound(_) => "404 not found"@,
            StreakError::InternalServerError(_) => "500 internal server error"@,
            StreakError::ServiceUnavailable => "503 service unavailable"@,
            StreakError::IoError(_) => "IO error"@,
            StreakError::JsonParseError(_) => "JSON parse error"@,
            StreakError::RequestError(_) => "Request error"@,
            StreakError::RequestUrlError(_) => "Request URL error"@,
            StreakError::RequestUrlEncodeError(_) => "Request URL Encode error"@,
            StreakError::InvalidServerResponse => "Invalid server response"@,
            StreakError::UnexpectedStatus(_) => "unexpected status"@,
        }
    }

    /// A short, fixed description of the error class.
    pub fn description(&self) -> (r: &'static str)
        ensures
            r@ == self.spec_description(),
    {
        match self {
            StreakError::BadRequest(_) => "400 bad request",
            StreakError::UnauthorizedKey(_) => "401 unauthorized",
            StreakError::Forbidden(_) => "403 forbidden",
            StreakError::ResourceNotFound(_) => "404 not found",
            StreakError::InternalServerError(_) => "500 internal server error",
            StreakError::ServiceUnavailable => "503 service unavailable",
            StreakError::IoError(_) => "IO error",
            StreakError::JsonParseError(_) => "JSON parse error",
            StreakError::RequestError(_) => "Request error",
            StreakError::RequestUrlError(_) => "Request URL error",
            StreakError::RequestUrlEncodeError(_) => "Request URL Encode error",
            StreakError::InvalidServerResponse => "Invalid server response",
            StreakError::UnexpectedStatus(_) => "unexpected status",
        }
    }

    /// The one-line rendering of the error, payload included.
    pub open spec fn spec_display(&self) -> Seq<char> {
        match self {
            StreakError::BadRequest(st) => "Bad Request: "@ + st.error@,
            StreakError::UnauthorizedKey(st) => "Unauthorized API Key: "@ + st.error@,
            StreakError::Forbidden(st) => "Forbidden: "@ + st.error@,
            StreakError::ResourceNotFound(st) => "Resource Not Found: "@ + st.error@,
            StreakError::InternalServerError(st) => "Internal Server Error: "@ + st.error@,
            StreakError::ServiceUnavailable => "Service Unavailable reported by the Streak service"@,
            StreakError::IoError(s) => "IO Error: "@ + s@,
            StreakError::JsonParseError(s) => "Json parsing error: "@ + s@,
            StreakError::RequestError(s) => "Request error: "@ + s@,
            StreakError::RequestUrlError(s) => "Bad Request URL: "@ + s@,
            StreakError::RequestUrlEncodeError(s) => "Bad Request URL Encoding: "@ + s@,
            StreakError::InvalidServerResponse => "Server returned an invalid response"@,
            StreakError::UnexpectedStatus(_) => "Unexpected status code in the server's response"@,
        }
    }

    /// Renders the error on one line, payload included.
    pub fn display_string(&self) -> (r: String)
        ensures
            r@ == self.spec_display(),
    {
        match self {
            StreakError::BadRequest(st) => {
                let mut r = "Bad Request: ".to_owned();
                r.append(st.error.as_str());
                r
            },
            StreakError::UnauthorizedKey(st) => {
                let mut r = "Unauthorized API Key: ".to_owned();
                r.append(st.error.as_str());
                r
            },
            StreakError::Forbidden(st) => {
                let mut r = "Forbidden: ".to_owned();
                r.append(st.error.as_str());
                r
            },
            StreakError::ResourceNotFound(st) => {
                let mut r = "Resource Not Found: ".to_owned();
                r.append(st.error.as_str());
                r
            },
            StreakError::InternalServerError(st) => {
                let mut r = "Internal Server Error: ".to_owned();
                r.append(st.error.as_str());
                r
            },
            StreakError::ServiceUnavailable => {
                "Service Unavailable reported by the Streak service".to_owned()
            },
            StreakError::IoError(s) => {
                let mut r = "IO Error: ".to_owned();
                r.append(s.as_str());
                r
            },
            StreakError::JsonParseError(s) => {
                let mut r = "Json parsing error: ".to_owned();
                r.append(s.as_str());
                r
            },
            StreakError::RequestError(s) => {
                let mut r = "Request error: ".to_owned();
                r.append(s.as_str());
                r
            },
            StreakError::RequestUrlError(s) => {
                let mut r = "Bad Request URL: ".to_owned();
                r.append(s.as_str());
                r
            },
            StreakError::RequestUrlEncodeError(s) => {
                let mut r = "Bad Request URL Encoding: ".to_owned();
                r.append(s.as_str());
                r
            },
            StreakError::InvalidServerResponse => {
                "Server returned an invalid response".to_owned()
            },
            StreakError::UnexpectedStatus(_) => {
                "Unexpected status code in the server's response".to_owned()
            },
        }
    }
}

/// What a JSON body must hold to read as a status envelope: a string under
/// `error`, and under `code` either nothing, `null`, or an integer in `i32`
/// range.
pub open spec fn spec_status_of(j: JsonValue) -> Option<StatusV> {
    match spec_get_str(j, "error"@) {
        Some(msg) => match spec_get(j, "code"@) {
            None => Some(StatusV { code: None, error: msg }),
            Some(JsonValue::Null) => Some(StatusV { code: None, error: msg }),
            Some(_) => match spec_get_i32(j, "code"@) {
                Some(c) => Some(StatusV { code: Some(c), error: msg }),
                None => None,
            },
        },
        None => None,
    }
}

/// Reads a status envelope out of a parsed JSON body.
pub fn decode_status(v: &JsonValue) -> (r: Result<Status, StreakError>)
    ensures
        (match spec_status_of(*v) {
            Some(sv) => r matches Ok(st) && st@ == sv,
            None => r matches Err(e) && e@ == ErrV::JsonParseError(
                "malformed status envelope"@,
            ),
        }),
{
    let error = match v.get_str("error") {
        Some(s) => s,
        None => {
            return Err(status_parse_error());
        },
    };
    let code: Option<i32> = match v.get("code") {
        None => None,
        Some(JsonValue::Null) => None,
        Some(_) => match v.get_i32("code") {
            Some(c) => Some(c),
            None => {
                return Err(status_parse_error());
            },
        },
    };
    Ok(Status { code, error })
}

/// The error value every malformed status envelope maps to.
fn status_parse_error() -> (e: StreakError)
    ensures
        e@ == ErrV::JsonParseError("malformed status envelope"@),
{
    StreakError::JsonParseError("malformed status envelope".to_owned())
}

} // verus!
