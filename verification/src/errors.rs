//! The closed set of failure kinds that every client operation maps onto.
use vstd::prelude::*;
use vstd::string::StringExecFns;
use crate::decimal::{dec_rep, u64_to_dec};

verus! {

/// One failure kind per way a client call can go wrong. Every operation
/// returns either a decoded success value or exactly one of these.
#[derive(Debug, Clone)]
pub enum GotifyError {
    /// The base address does not parse as an absolute URL.
    InvalidUrl(String),
    /// The request could not be sent or the response not read at all.
    NetworkError(String),
    /// The payload does not match the expected schema.
    JsonError(String),
    /// The server answered 401 or 403.
    AuthFailed(String),
    /// The server answered 404 for the requested resource.
    NotFound(String),
    /// The server answered with a 5xx status; carries the response body.
    ServerError(String),
    /// The server answered 429; distinct so callers may back off.
    RateLimited(String),
    /// An operation was attempted with no active client handle.
    NotConnected,
    /// Any other non-success status; carries the raw status and body.
    Unknown(u16, String),
}

/// The error owed for a non-success HTTP status. A 403 does not carry the
/// response body: its payload is the fixed guidance sentence about token
/// permissions, which a spec function cannot build as a `String`, so this
/// is a relation that pins that payload by its characters.
pub open spec fn spec_status_error_matches(status: u16, body: String, e: GotifyError) -> bool {
    if status == 401 {
        e == GotifyError::AuthFailed(body)
    } else if status == 403 {
        e matches GotifyError::AuthFailed(m) && m@
            == "Access forbidden. Check your token permissions."@
    } else if status == 404 {
        e == GotifyError::NotFound(body)
    } else if status == 429 {
        e == GotifyError::RateLimited(body)
    } else if 500 <= status && status <= 599 {
        e == GotifyError::ServerError(body)
    } else {
        e == GotifyError::Unknown(status, body)
    }
}

/// The one-line description of an error, for display at the boundary.
pub open spec fn spec_error_text(e: GotifyError) -> Seq<char> {
    match e {
        GotifyError::InvalidUrl(m) => "Invalid URL: "@ + m@,
        GotifyError::NetworkError(m) => "Network error: "@ + m@,
        GotifyError::JsonError(m) => "JSON parsing error: "@ + m@,
        GotifyError::AuthFailed(m) => "Authentication failed: "@ + m@,
        GotifyError::NotFound(m) => "Resource not found: "@ + m@,
        GotifyError::ServerError(m) => "Server error: "@ + m@,
        GotifyError::RateLimited(m) => "Rate limited: "@ + m@,
        GotifyError::NotConnected => "Not connected"@,
        GotifyError::Unknown(status, m) => "HTTP "@ + dec_rep(status as nat) + ": "@ + m@,
    }
}

impl GotifyError {
    /// Classifies a non-success HTTP status: 401/403 is an authentication
    /// failure (a 403 body is replaced by fixed guidance on token
    /// permissions), 404 a missing resource, 429 a rate limit, 5xx a
    /// server fault, and anything else is carried through unmapped.
    pub fn from_status_code(status: u16, body: String) -> (r: GotifyError)
        ensures
            spec_status_error_matches(status, body, r),
    {
        if status == 401 {
            GotifyError::AuthFailed(body)
        } else if status == 403 {
            GotifyError::AuthFailed(
                String::from_str("Access forbidden. Check your token permissions."),
            )
        } else if status == 404 {
            GotifyError::NotFound(body)
        } else if status == 429 {
            GotifyError::RateLimited(body)
        } else if 500 <= status && status <= 599 {
            GotifyError::ServerError(body)
        } else {
            GotifyError::Unknown(status, body)
        }
    }

    /// Renders the error as one line of text.
    pub fn display_string(&self) -> (r: String)
        ensures
            r@ == spec_error_text(*self),
    {
        match self {
            GotifyError::InvalidUrl(m) => {
                let mut s = String::from_str("Invalid URL: ");
                s.append(m.as_str());
                s
            },
            GotifyError::NetworkError(m) => {
                let mut s = String::from_str("Network error: ");
                s.append(m.as_str());
                s
            },
            GotifyError::JsonError(m) => {
                let mut s = String::from_str("JSON parsing error: ");
                s.append(m.as_str());
                s
            },
            GotifyError::AuthFailed(m) => {
                let mut s = String::from_str("Authentication failed: ");
                s.append(m.as_str());
                s
            },
            GotifyError::NotFound(m) => {
                let mut s = String::from_str("Resource not found: ");
                s.append(m.as_str());
                s
            },
            GotifyError::ServerError(m) => {
                let mut s = String::from_str("Server error: ");
                s.append(m.as_str());
                s
            },
            GotifyError::RateLimited(m) => {
                let mut s = String::from_str("Rate limited: ");
                s.append(m.as_str());
                s
            },
            GotifyError::NotConnected => String::from_str("Not connected"),
            GotifyError::Unknown(status, m) => {
                let mut s = String::from_str("HTTP ");
                let digits = u64_to_dec(*status as u64);
                s.append(digits.as_str());
                s.append(": ");
                s.append(m.as_str());
                proof {
                    assert(s@ =~= "HTTP "@ + dec_rep(*status as nat) + ": "@ + m@);
                }
                s
            },
        }
    }
}

} // verus!
