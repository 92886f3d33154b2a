//! The library's error type, its stable categories, its display text and
//! its JSON error envelope, and the classification of the spot connector's
//! failures.
use vstd::prelude::*;

use crate::text::{append_decimal, append_signed, decimal, joined, signed_decimal};

verus! {

/// Structured error type. Each variant maps to a stable `error` category in
/// JSON error envelopes.
#[derive(Debug, PartialEq, Eq)]
pub enum BinanceError {
    Api { code: i64, message: String },
    Auth(String),
    Network(String),
    Validation(String),
    RateLimit(String),
    Config(String),
    Io(String),
    Parse(String),
    WebSocket(String),
    Internal(String),
}

impl Clone for BinanceError {
    fn clone(&self) -> (r: Self)
        ensures
            r == *self,
    {
        match self {
            BinanceError::Api { code, message } => BinanceError::Api {
                code: *code,
                message: message.clone(),
            },
            BinanceError::Auth(m) => BinanceError::Auth(m.clone()),
            BinanceError::Network(m) => BinanceError::Network(m.clone()),
            BinanceError::Validation(m) => BinanceError::Validation(m.clone()),
            BinanceError::RateLimit(m) => BinanceError::RateLimit(m.clone()),
            BinanceError::Config(m) => BinanceError::Config(m.clone()),
            BinanceError::Io(m) => BinanceError::Io(m.clone()),
            BinanceError::Parse(m) => BinanceError::Parse(m.clone()),
            BinanceError::WebSocket(m) => BinanceError::WebSocket(m.clone()),
            BinanceError::Internal(m) => BinanceError::Internal(m.clone()),
        }
    }
}

/// The stable category of an error.
pub open spec fn category_of(e: BinanceError) -> Seq<char> {
    match e {
        BinanceError::Api { .. } => "api"@,
        BinanceError::Auth(_) => "auth"@,
        BinanceError::Network(_) => "network"@,
        BinanceError::Validation(_) => "validation"@,
        BinanceError::RateLimit(_) => "rate_limit"@,
        BinanceError::Config(_) => "config"@,
        BinanceError::Io(_) => "io"@,
        BinanceError::Parse(_) => "parse"@,
        BinanceError::WebSocket(_) => "websocket"@,
        BinanceError::Internal(_) => "internal"@,
    }
}

/// Whether retrying the failed operation may succeed.
pub open spec fn is_retryable(e: BinanceError) -> bool {
    e is Network || e is RateLimit || e is WebSocket
}

/// The human-readable text of an error.
pub open spec fn display_text(e: BinanceError) -> Seq<char> {
    match e {
        BinanceError::Api { code, message } => "API error ("@ + signed_decimal(code as int) + "): "@
            + message@,
        BinanceError::Auth(m) => "Authentication failed: "@ + m@,
        BinanceError::Network(m) => "Network error: "@ + m@,
        BinanceError::Validation(m) => "Validation error: "@ + m@,
        BinanceError::RateLimit(m) => "Rate limited: "@ + m@,
        BinanceError::Config(m) => "Configuration error: "@ + m@,
        BinanceError::Io(m) => "I/O error: "@ + m@,
        BinanceError::Parse(m) => "Parse error: "@ + m@,
        BinanceError::WebSocket(m) => "WebSocket error: "@ + m@,
        BinanceError::Internal(m) => "Internal error: "@ + m@,
    }
}

/// The JSON error envelope of an error, as plain values: `error` is always
/// true, `error_type` is the category, `message` the display text.
pub struct ErrorEnvelope {
    pub error: bool,
    pub error_type: String,
    pub message: String,
    pub retryable: bool,
}

impl BinanceError {
    /// Returns the stable error category string for JSON envelopes.
    pub fn category(&self) -> (r: &'static str)
        ensures
            r@ == category_of(*self),
    {
        match self {
            BinanceError::Api { .. } => "api",
            BinanceError::Auth(_) => "auth",
            BinanceError::Network(_) => "network",
            BinanceError::Validation(_) => "validation",
            BinanceError::RateLimit(_) => "rate_limit",
            BinanceError::Config(_) => "config",
            BinanceError::Io(_) => "io",
            BinanceError::Parse(_) => "parse",
            BinanceError::WebSocket(_) => "websocket",
            BinanceError::Internal(_) => "internal",
        }
    }

    /// Whether this error is retryable.
    pub fn retryable(&self) -> (r: bool)
        ensures
            r == is_retryable(*self),
    {
        match self {
            BinanceError::Network(_) | BinanceError::RateLimit(_) | BinanceError::WebSocket(_) => {
                true
            },
            _ => false,
        }
    }

    /// The display text of this error ("Authentication failed: ...", ...).
    pub fn to_text(&self) -> (r: String)
        ensures
            r@ == display_text(*self),
    {
        match self {
            BinanceError::Api { code, message } => {
                let mut s = String::from_str("API error (");
                append_signed(&mut s, *code);
                s.append("): ");
                s.append(message.as_str());
                s
            },
            BinanceError::Auth(m) => joined("Authentication failed: ", m.as_str()),
            BinanceError::Network(m) => joined("Network error: ", m.as_str()),
            BinanceError::Validation(m) => joined("Validation error: ", m.as_str()),
            BinanceError::RateLimit(m) => joined("Rate limited: ", m.as_str()),
            BinanceError::Config(m) => joined("Configuration error: ", m.as_str()),
            BinanceError::Io(m) => joined("I/O error: ", m.as_str()),
            BinanceError::Parse(m) => joined("Parse error: ", m.as_str()),
            BinanceError::WebSocket(m) => joined("WebSocket error: ", m.as_str()),
            BinanceError::Internal(m) => joined("Internal error: ", m.as_str()),
        }
    }

    /// The JSON error envelope of this error.
    pub fn to_json_envelope(&self) -> (r: ErrorEnvelope)
        ensures
            r.error,
            r.error_type@ == category_of(*self),
            r.message@ == display_text(*self),
            r.retryable == is_retryable(*self),
    {
        ErrorEnvelope {
            error: true,
            error_type: String::from_str(self.category()),
            message: self.to_text(),
            retryable: self.retryable(),
        }
    }
}


/// A failure of the spot connector's HTTP client, as plain values: the
/// status code, error code and message of a structured API error, the body
/// of an unstructured one, the body of a server error, or the text of a
/// parse or transport failure.
#[derive(Debug, PartialEq, Eq)]
pub enum ConnectorFailure {
    Structured { status_code: u16, code: i16, message: String },
    Raw { status_code: u16, data: String },
    Server { status_code: u16, data: String },
    InvalidApiSecret,
    Parse(String),
    Send(String),
}

/// Whether `e` is the library error that the connector failure `f` is
/// reported as: rate limiting (HTTP 429, or API code -1003) first, then
/// authentication (HTTP 401 or 403), then a plain API error; server errors
/// and transport failures are network errors.
pub open spec fn classified_as(f: ConnectorFailure, e: BinanceError) -> bool {
    match f {
        ConnectorFailure::Structured { status_code, code, message } => {
            if code == -1003 || status_code == 429 {
                e matches BinanceError::RateLimit(m) && m@ == message@
            } else if status_code == 401 || status_code == 403 {
                e matches BinanceError::Auth(m) && m@ == message@
            } else {
                e matches BinanceError::Api { code: c, message: m } && c == code as i64 && m@
                    == message@
            }
        },
        ConnectorFailure::Raw { status_code, data } => {
            if status_code == 429 {
                e matches BinanceError::RateLimit(m) && m@ == data@
            } else if status_code == 401 || status_code == 403 {
                e matches BinanceError::Auth(m) && m@ == data@
            } else {
                e matches BinanceError::Api { code: c, message: m } && c == -(status_code as i64)
                    && m@ == data@
            }
        },
        ConnectorFailure::Server { status_code, data } => e matches BinanceError::Network(m) && m@
            == "Server error ("@ + decimal(status_code as nat) + "): "@ + data@,
        ConnectorFailure::InvalidApiSecret => e matches BinanceError::Auth(m) && m@
            == "Invalid API secret"@,
        ConnectorFailure::Parse(t) => e matches BinanceError::Parse(m) && m@ == t@,
        ConnectorFailure::Send(t) => e matches BinanceError::Network(m) && m@ == t@,
    }
}

impl BinanceError {
    /// Reports a failure of the spot connector as a library error.
    pub fn from_connector(f: ConnectorFailure) -> (r: BinanceError)
        ensures
            classified_as(f, r),
    {
        match f {
            ConnectorFailure::Structured { status_code, code, message } => {
                let code = code as i64;
                if code == -1003 || status_code == 429 {
                    BinanceError::RateLimit(message)
                } else if status_code == 401 || status_code == 403 {
                    BinanceError::Auth(message)
                } else {
                    BinanceError::Api { code, message }
                }
            },
            ConnectorFailure::Raw { status_code, data } => {
                let code = -(status_code as i64);
                if status_code == 429 {
                    BinanceError::RateLimit(data)
                } else if status_code == 401 || status_code == 403 {
                    BinanceError::Auth(data)
                } else {
                    BinanceError::Api { code, message: data }
                }
            },
            ConnectorFailure::Server { status_code, data } => {
                let mut m = String::from_str("Server error (");
                append_decimal(&mut m, status_code as u64);
                m.append("): ");
                m.append(data.as_str());
                BinanceError::Network(m)
            },
            ConnectorFailure::InvalidApiSecret => BinanceError::Auth(
                String::from_str("Invalid API secret"),
            ),
            ConnectorFailure::Parse(t) => BinanceError::Parse(t),
            ConnectorFailure::Send(t) => BinanceError::Network(t),
        }
    }
}

/// The HTTP status of a client (4XX) failure.
pub open spec fn client_status(f: ConnectorFailure) -> Option<u16> {
    match f {
        ConnectorFailure::Structured { status_code, .. } => Some(status_code),
        ConnectorFailure::Raw { status_code, .. } => Some(status_code),
        _ => None,
    }
}

/// Law: an error is retryable exactly when its category is "network",
/// "rate_limit" or "websocket".
pub proof fn law_retryable_categories(e: BinanceError)
    ensures
        is_retryable(e) <==> (category_of(e) == "network"@ || category_of(e) == "rate_limit"@
            || category_of(e) == "websocket"@),
{
    reveal_strlit("api");
    reveal_strlit("auth");
    reveal_strlit("network");
    reveal_strlit("validation");
    reveal_strlit("rate_limit");
    reveal_strlit("config");
    reveal_strlit("io");
    reveal_strlit("parse");
    reveal_strlit("websocket");
    reveal_strlit("internal");
    assert("network"@.len() == 7 && "rate_limit"@.len() == 10 && "websocket"@.len() == 9);
    match e {
        BinanceError::Validation(_) => {
            assert("validation"@[0] != "rate_limit"@[0]);
        },
        BinanceError::Api { .. } => assert("api"@.len() == 3),
        BinanceError::Auth(_) => assert("auth"@.len() == 4),
        BinanceError::Config(_) => assert("config"@.len() == 6),
        BinanceError::Io(_) => assert("io"@.len() == 2),
        BinanceError::Parse(_) => assert("parse"@.len() == 5),
        BinanceError::Internal(_) => assert("internal"@.len() == 8),
        _ => {},
    }
}

/// Law: a connector failure answered with HTTP 429 is reported as a
/// retryable rate-limit error, whatever its body.
pub proof fn law_too_many_requests_is_retryable(f: ConnectorFailure, e: BinanceError)
    requires
        classified_as(f, e),
        client_status(f) == Some(429u16),
    ensures
        e is RateLimit,
        is_retryable(e),
        category_of(e) == "rate_limit"@,
{
}

/// Law: a connector failure answered with HTTP 401 or 403, and not rate
/// limited, is reported as an authentication error, which is not retryable.
pub proof fn law_forbidden_is_auth(f: ConnectorFailure, e: BinanceError)
    requires
        classified_as(f, e),
        client_status(f) == Some(401u16) || client_status(f) == Some(403u16),
        !(f matches ConnectorFailure::Structured { code, .. } && code == -1003),
    ensures
        e is Auth,
        !is_retryable(e),
        category_of(e) == "auth"@,
{
}

} // verus!
