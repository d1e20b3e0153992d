//! The closed set of failures that a call can end in.
use vstd::prelude::*;

verus! {

/// A failure of the transport below HTTP, in the terms the retry policy needs.
#[derive(Debug, Clone, PartialEq, Eq)]
pub struct TransportError {
    /// Human-readable description of the cause.
    pub message: String,
    /// The connection could not be established.
    pub is_connect: bool,
    /// The exchange ran out of time.
    pub is_timeout: bool,
}

/// A failed call. Exactly one kind holds; the HTTP kinds may carry a
/// provider error code.
#[derive(Debug, Clone, PartialEq, Eq)]
pub enum Error {
    /// Authentication failed (401).
    Authentication { message: String, code: Option<String> },
    /// Bad request (400).
    BadRequest { message: String, code: Option<String> },
    /// Resource not found (404).
    NotFound { message: String, code: Option<String> },
    /// Validation failed (422), with the messages for each offending field.
    Validation { message: String, errors: Vec<(String, Vec<String>)>, code: Option<String> },
    /// Rate limit exceeded (429), with the wait the server asked for.
    RateLimit { message: String, retry_after: Option<u64>, code: Option<String> },
    /// Any other unsuccessful status, 5xx included.
    Server { message: String, status_code: u16, code: Option<String> },
    /// The request could not be carried out by the transport.
    Http(TransportError),
    /// The response body could not be decoded.
    Json(String),
    /// A header value could not be built.
    InvalidHeader(String),
    /// The request timed out.
    Timeout,
}

pub type Result<T> = core::result::Result<T, Error>;

pub open spec fn opt_text(o: Option<String>) -> Option<Seq<char>> {
    match o {
        Some(s) => Some(s@),
        None => None,
    }
}

pub open spec fn opt_str_text(o: Option<&str>) -> Option<Seq<char>> {
    match o {
        Some(s) => Some(s@),
        None => None,
    }
}

/// The statuses on which a server error is worth another attempt.
pub open spec fn is_retryable_status(status: u16) -> bool {
    status == 500 || status == 502 || status == 503 || status == 504
}

impl Error {
    pub open spec fn code_spec(&self) -> Option<Seq<char>> {
        match self {
            Error::Authentication { code, .. } => opt_text(*code),
            Error::BadRequest { code, .. } => opt_text(*code),
            Error::NotFound { code, .. } => opt_text(*code),
            Error::Validation { code, .. } => opt_text(*code),
            Error::RateLimit { code, .. } => opt_text(*code),
            Error::Server { code, .. } => opt_text(*code),
            _ => None,
        }
    }

    pub open spec fn status_code_spec(&self) -> Option<u16> {
        match self {
            Error::Authentication { .. } => Some(401),
            Error::BadRequest { .. } => Some(400),
            Error::NotFound { .. } => Some(404),
            Error::Validation { .. } => Some(422),
            Error::RateLimit { .. } => Some(429),
            Error::Server { status_code, .. } => Some(*status_code),
            _ => None,
        }
    }

    pub open spec fn retry_after_spec(&self) -> Option<u64> {
        match self {
            Error::RateLimit { retry_after, .. } => *retry_after,
            _ => None,
        }
    }

    /// Whether another attempt could succeed: a server error on a status of
    /// the retryable set, a timeout, or a transport failure to connect or in
    /// time.
    pub open spec fn is_retryable_spec(&self) -> bool {
        match self {
            Error::Server { status_code, .. } => is_retryable_status(*status_code),
            Error::Timeout => true,
            Error::Http(t) => t.is_connect || t.is_timeout,
            _ => false,
        }
    }

    /// The provider error code, if this kind carries one.
    pub fn code(&self) -> (r: Option<&str>)
        ensures
            opt_str_text(r) == self.code_spec(),
    {
        let c = match self {
            Error::Authentication { code, .. } => code,
            Error::BadRequest { code, .. } => code,
            Error::NotFound { code, .. } => code,
            Error::Validation { code, .. } => code,
            Error::RateLimit { code, .. } => code,
            Error::Server { code, .. } => code,
            _ => {
                return None;
            },
        };
        match c {
            Some(s) => Some(s.as_str()),
            None => None,
        }
    }

    /// The HTTP status of the response this error came from, if any.
    pub fn status_code(&self) -> (r: Option<u16>)
        ensures
            r == self.status_code_spec(),
    {
        match self {
            Error::Authentication { .. } => Some(401),
            Error::BadRequest { .. } => Some(400),
            Error::NotFound { .. } => Some(404),
            Error::Validation { .. } => Some(422),
            Error::RateLimit { .. } => Some(429),
            Error::Server { status_code, .. } => Some(*status_code),
            _ => None,
        }
    }

    /// The seconds to wait before retrying, for a rate-limit error.
    pub fn retry_after(&self) -> (r: Option<u64>)
        ensures
            r == self.retry_after_spec(),
    {
        match self {
            Error::RateLimit { retry_after, .. } => *retry_after,
            _ => None,
        }
    }

    /// The messages for each field, for a validation error.
    pub fn validation_errors(&self) -> (r: Option<&Vec<(String, Vec<String>)>>)
        ensures
            r == (match self {
                Error::Validation { errors, .. } => Some(errors),
                _ => None,
            }),
    {
        match self {
            Error::Validation { errors, .. } => Some(errors),
            _ => None,
        }
    }

    /// Whether the request engine may try the call again after this error.
    pub fn is_retryable(&self) -> (r: bool)
        ensures
            r == self.is_retryable_spec(),
    {
        match self {
            Error::Server { status_code, .. } => *status_code == 500 || *status_code == 502
                || *status_code == 503 || *status_code == 504,
            Error::Timeout => true,
            Error::Http(t) => t.is_connect || t.is_timeout,
            _ => false,
        }
    }
}

} // verus!
