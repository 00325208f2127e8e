//! The error type shared by all providers (speech-to-text, text-to-speech,
//! language model).

use vstd::prelude::*;
use crate::error::prefixed;

verus! {

/// Error categories shared across all provider types.
#[derive(Debug, Clone)]
pub enum ProviderError {
    /// Authentication failed (invalid key, expired token, etc.).
    Auth(String),
    /// Network-level error (DNS, connection refused, etc.).
    Network(String),
    /// Provider rate-limited the request.
    RateLimit { retry_after_ms: Option<u64>, message: String },
    /// Request timed out.
    Timeout(String),
    /// Invalid input (bad audio format, text too long, etc.).
    InvalidInput(String),
    /// Provider returned an unexpected response.
    InvalidResponse(String),
    /// Internal provider error (bug, misconfiguration).
    Internal(String),
    /// Provider is not available or not configured.
    Unavailable(String),
}

/// The text a provider error reads as: its category, then its message.
pub open spec fn display(e: ProviderError) -> Seq<char> {
    match e {
        ProviderError::Auth(m) => "Authentication error: "@ + m@,
        ProviderError::Network(m) => "Network error: "@ + m@,
        ProviderError::RateLimit { message, .. } => "Rate limited: "@ + message@,
        ProviderError::Timeout(m) => "Timeout: "@ + m@,
        ProviderError::InvalidInput(m) => "Invalid input: "@ + m@,
        ProviderError::InvalidResponse(m) => "Invalid response: "@ + m@,
        ProviderError::Internal(m) => "Internal error: "@ + m@,
        ProviderError::Unavailable(m) => "Provider unavailable: "@ + m@,
    }
}

impl ProviderError {
    /// The text the error reads as.
    pub fn to_string(&self) -> (r: String)
        ensures
            r@ == display(*self),
    {
        match self {
            ProviderError::Auth(m) => prefixed("Authentication error: ", m.as_str()),
            ProviderError::Network(m) => prefixed("Network error: ", m.as_str()),
            ProviderError::RateLimit { message, .. } => prefixed("Rate limited: ", message.as_str()),
            ProviderError::Timeout(m) => prefixed("Timeout: ", m.as_str()),
            ProviderError::InvalidInput(m) => prefixed("Invalid input: ", m.as_str()),
            ProviderError::InvalidResponse(m) => prefixed("Invalid response: ", m.as_str()),
            ProviderError::Internal(m) => prefixed("Internal error: ", m.as_str()),
            ProviderError::Unavailable(m) => prefixed("Provider unavailable: ", m.as_str()),
        }
    }

    /// A failed HTTP exchange: a timeout when the transport reports one,
    /// a network error otherwise; the detail is the transport's own text.
    pub fn from_transport(timed_out: bool, detail: String) -> (r: ProviderError)
        ensures
            timed_out ==> r == ProviderError::Timeout(detail),
            !timed_out ==> r == ProviderError::Network(detail),
    {
        if timed_out {
            ProviderError::Timeout(detail)
        } else {
            ProviderError::Network(detail)
        }
    }
}

} // verus!
