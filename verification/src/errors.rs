//! Error types.
//!
//! Every error says whether the operation that produced it is worth trying
//! again: transport failures, timeouts, a rate-limit response and server
//! errors are; everything else is not.

use crate::numbers::{decimal_digits, to_decimal};
use crate::text::{chars_of, push_all, push_text, string_of};
use vstd::prelude::*;
use vstd::string::StringExecFns;

verus! {

/// Whether an HTTP status code is a server error (500 to 599).
pub open spec fn is_server_error(code: u16) -> bool {
    500 <= code <= 599
}

/// Whether an HTTP status code is a client error (400 to 499).
pub open spec fn is_client_error(code: u16) -> bool {
    400 <= code <= 499
}

/// The status code of a successful response.
pub const STATUS_OK: u16 = 200;

/// The status code that says the client is sending too many requests.
pub const STATUS_TOO_MANY_REQUESTS: u16 = 429;

/// The status code that says the resource does not exist.
pub const STATUS_NOT_FOUND: u16 = 404;

/// Whether a response with this status code is worth another attempt: a
/// rate-limit response or a server error.
pub open spec fn status_is_retryable(code: u16) -> bool {
    code == STATUS_TOO_MANY_REQUESTS || is_server_error(code)
}

/// An input that was refused before any request was made.
#[derive(Debug, Clone)]
pub enum ValidationError {
    /// The input is malformed or not allowed; the text says why.
    Invalid(String),
    /// The named data format is not known.
    UnknownFormat(String),
}

impl ValidationError {
    /// The text that the error carries.
    pub open spec fn text(self) -> Seq<char> {
        match self {
            ValidationError::Invalid(m) => m@,
            ValidationError::UnknownFormat(m) => m@,
        }
    }
}

/// A failure of the transport or an unsuccessful response.
#[derive(Debug, Clone)]
pub enum NetworkError {
    /// The connection failed or the transport reported an error.
    General(String),
    /// The attempt did not finish within its timeout.
    Timeout,
    /// The server said that the client is sending too many requests.
    RateLimited,
    /// The server said that the resource does not exist.
    NotFound,
    /// Any other unsuccessful status.
    Status {
        /// The HTTP status code.
        code: u16,
    },
}

impl NetworkError {
    /// Transport failures, timeouts, a rate-limit response and server errors
    /// are retryable; a missing resource and every other status are not.
    pub open spec fn retryable(self) -> bool {
        match self {
            NetworkError::General(_) => true,
            NetworkError::Timeout => true,
            NetworkError::RateLimited => true,
            NetworkError::NotFound => false,
            NetworkError::Status { code } => status_is_retryable(code),
        }
    }

    /// The error that stands for an unsuccessful status code.
    pub open spec fn of_status(code: u16) -> NetworkError {
        if code == STATUS_TOO_MANY_REQUESTS {
            NetworkError::RateLimited
        } else if code == STATUS_NOT_FOUND {
            NetworkError::NotFound
        } else {
            NetworkError::Status { code }
        }
    }

    /// Whether the request is worth another attempt.
    pub fn is_retryable(&self) -> (r: bool)
        ensures
            r == self.retryable(),
    {
        match self {
            NetworkError::General(_) => true,
            NetworkError::Timeout => true,
            NetworkError::RateLimited => true,
            NetworkError::NotFound => false,
            NetworkError::Status { code } => *code == STATUS_TOO_MANY_REQUESTS || (500 <= *code
                && *code <= 599),
        }
    }

    /// The error for an unsuccessful status code: the rate-limit and the
    /// not-found status each have an error of their own.
    pub fn from_status(code: u16) -> (r: NetworkError)
        ensures
            r == NetworkError::of_status(code),
    {
        if code == STATUS_TOO_MANY_REQUESTS {
            NetworkError::RateLimited
        } else if code == STATUS_NOT_FOUND {
            NetworkError::NotFound
        } else {
            NetworkError::Status { code }
        }
    }
}

/// A body that arrived in full and could not be decoded.
#[derive(Debug, Clone)]
pub enum ParseError {
    /// The bytes are not valid UTF-8.
    Utf8,
    /// The text is not the JSON that was expected; the text says why.
    Json(String),
    /// The `Content-Encoding` names a compression that is not supported.
    UnsupportedEncoding(String),
    /// The compressed stream is damaged.
    Decompress,
    /// The content does not have the expected form; the text says why.
    Format(String),
    /// A document selector could not be built.
    Selector(String),
}

/// A failure of local input or output.
#[derive(Debug, Clone)]
pub enum IoError {
    /// The operating system's message.
    Io(String),
}

/// Errors that can occur during HTTP fetch operations.
#[derive(Debug, Clone)]
pub enum FetchError {
    /// The transport failed or the response was unsuccessful.
    Network(NetworkError),
    /// The body could not be decoded.
    Parse(ParseError),
    /// Local input or output failed.
    Io(IoError),
    /// The request was refused before it was sent.
    Validation(ValidationError),
}

impl FetchError {
    /// Only network errors can be retryable: validation and decoding fail
    /// the same way every time.
    pub open spec fn retryable(self) -> bool {
        match self {
            FetchError::Network(e) => e.retryable(),
            _ => false,
        }
    }

    /// Whether the request is worth another attempt.
    pub fn is_retryable(&self) -> (r: bool)
        ensures
            r == self.retryable(),
    {
        match self {
            FetchError::Network(e) => e.is_retryable(),
            _ => false,
        }
    }
}

/// Errors that can occur during ticker and CIK lookups.
#[derive(Debug, Clone)]
pub enum LookupError {
    /// The key is in neither the cache nor the source dataset.
    NotFound(String),
    /// The source dataset could not be fetched.
    Fetch(FetchError),
    /// The source dataset holds no entry at all.
    EmptyDataset,
}

/// Errors that can occur during document parsing.
#[derive(Debug, Clone)]
pub enum ParserError {
    /// The document could not be parsed; the text says why.
    Parse(String),
    /// A detail of the content could not be decoded.
    ParseDetail(ParseError),
    /// The input was refused.
    Validation(ValidationError),
    /// The format is known but there is no parser for it.
    NotImplemented(String),
}

/// Main error type for operations on EDGAR data.
#[derive(Debug, Clone)]
pub enum EdgarError {
    /// Network request failed.
    Network(String),
    /// HTTP error response received.
    HttpStatus {
        /// HTTP status code.
        status: u16,
        /// Error message.
        message: String,
    },
    /// Request timed out after this many seconds.
    Timeout(u64),
    /// Failed to parse content in the specified format.
    Parse {
        /// Format being parsed (e.g., "JSON", "HTML").
        format: String,
        /// Reason for parse failure.
        reason: String,
    },
    /// Invalid UTF-8 encoding encountered.
    Utf8(String),
    /// Invalid input provided.
    Validation(String),
    /// Unsupported format encountered.
    UnsupportedFormat(String),
    /// I/O error occurred.
    Io(String),
    /// Requested resource not found.
    NotFound(String),
    /// Feature not implemented.
    NotImplemented(String),
}

/// `head` followed by `tail`.
fn prefixed(head: &str, tail: &str) -> (r: String)
    ensures
        r@ == head@ + tail@,
{
    let mut out = String::from_str(head);
    out.append(tail);
    out
}

/// The reason phrase that goes with a status code.
pub open spec fn status_message(code: u16) -> Seq<char> {
    if code == 400 {
        "Bad Request"@
    } else if code == 401 {
        "Unauthorized"@
    } else if code == 403 {
        "Forbidden - check User-Agent header"@
    } else if code == 404 {
        "Not Found"@
    } else if code == 429 {
        "Too Many Requests - rate limited"@
    } else if code == 500 {
        "Internal Server Error"@
    } else if code == 502 {
        "Bad Gateway"@
    } else if code == 503 {
        "Service Unavailable"@
    } else {
        "HTTP Error"@
    }
}

impl EdgarError {
    /// Network errors, timeouts, a rate-limit response and server errors are
    /// retryable.
    pub open spec fn retryable(self) -> bool {
        match self {
            EdgarError::Network(_) => true,
            EdgarError::Timeout(_) => true,
            EdgarError::HttpStatus { status, .. } => status_is_retryable(status),
            _ => false,
        }
    }

    /// The message of the error.
    pub open spec fn message(self) -> Seq<char> {
        match self {
            EdgarError::Network(m) => "network request failed: "@ + m@,
            EdgarError::HttpStatus { status, message } => "HTTP "@ + decimal_digits(status as nat)
                + ": "@ + message@,
            EdgarError::Timeout(secs) => "request timed out after "@ + decimal_digits(secs as nat)
                + "s"@,
            EdgarError::Parse { format, reason } => "failed to parse "@ + format@ + ": "@
                + reason@,
            EdgarError::Utf8(m) => "invalid UTF-8 encoding: "@ + m@,
            EdgarError::Validation(m) => "invalid input: "@ + m@,
            EdgarError::UnsupportedFormat(m) => "unsupported format: "@ + m@,
            EdgarError::Io(m) => "I/O error: "@ + m@,
            EdgarError::NotFound(m) => "not found: "@ + m@,
            EdgarError::NotImplemented(m) => "not implemented: "@ + m@,
        }
    }

    /// The message of the error, as a new string: what kind of error it is,
    /// followed by what it carries. A status error reads `HTTP 404: Not
    /// Found`.
    pub fn to_string(&self) -> (r: String)
        ensures
            r@ == self.message(),
    {
        match self {
            EdgarError::Network(m) => prefixed("network request failed: ", m.as_str()),
            EdgarError::HttpStatus { status, message } => {
                let mut out = chars_of("HTTP ");
                push_all(&mut out, &to_decimal(*status as u64));
                push_text(&mut out, ": ");
                push_text(&mut out, message.as_str());
                string_of(&out)
            },
            EdgarError::Timeout(secs) => {
                let mut out = chars_of("request timed out after ");
                push_all(&mut out, &to_decimal(*secs));
                push_text(&mut out, "s");
                string_of(&out)
            },
            EdgarError::Parse { format, reason } => {
                let mut out = chars_of("failed to parse ");
                push_text(&mut out, format.as_str());
                push_text(&mut out, ": ");
                push_text(&mut out, reason.as_str());
                string_of(&out)
            },
            EdgarError::Utf8(m) => prefixed("invalid UTF-8 encoding: ", m.as_str()),
            EdgarError::Validation(m) => prefixed("invalid input: ", m.as_str()),
            EdgarError::UnsupportedFormat(m) => prefixed("unsupported format: ", m.as_str()),
            EdgarError::Io(m) => prefixed("I/O error: ", m.as_str()),
            EdgarError::NotFound(m) => prefixed("not found: ", m.as_str()),
            EdgarError::NotImplemented(m) => prefixed("not implemented: ", m.as_str()),
        }
    }

    /// Check if this error is retryable.
    pub fn is_retryable(&self) -> (r: bool)
        ensures
            r == self.retryable(),
    {
        match self {
            EdgarError::Network(_) => true,
            EdgarError::Timeout(_) => true,
            EdgarError::HttpStatus { status, .. } => *status == STATUS_TOO_MANY_REQUESTS || (500
                <= *status && *status <= 599),
            _ => false,
        }
    }

    /// Create an HTTP status error with the message that goes with the code.
    pub fn http_status(code: u16) -> (r: EdgarError)
        ensures
            r matches EdgarError::HttpStatus { status, message } && status == code && message@
                == status_message(code),
    {
        let message = if code == 400 {
            "Bad Request"
        } else if code == 401 {
            "Unauthorized"
        } else if code == 403 {
            "Forbidden - check User-Agent header"
        } else if code == 404 {
            "Not Found"
        } else if code == 429 {
            "Too Many Requests - rate limited"
        } else if code == 500 {
            "Internal Server Error"
        } else if code == 502 {
            "Bad Gateway"
        } else if code == 503 {
            "Service Unavailable"
        } else {
            "HTTP Error"
        };
        EdgarError::HttpStatus { status: code, message: String::from_str(message) }
    }
}

} // verus!
