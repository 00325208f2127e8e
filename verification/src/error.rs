//! The application's error type and the text each kind of error reads as.

use vstd::prelude::*;
use crate::providers::provider_error::{self, ProviderError};

verus! {

/// The ways an operation of the application can fail, each carrying its
/// detail message.
#[derive(Debug)]
pub enum AppError {
    Api(String),
    Network(String),
    Config(String),
    Crypto(String),
    Store(String),
    Db(String),
    Provider(String),
    Memory(String),
}

/// The text an error reads as: its category, a colon and its detail.
pub open spec fn display(e: AppError) -> Seq<char> {
    match e {
        AppError::Api(m) => "API error: "@ + m@,
        AppError::Network(m) => "Network error: "@ + m@,
        AppError::Config(m) => "Config error: "@ + m@,
        AppError::Crypto(m) => "Crypto error: "@ + m@,
        AppError::Store(m) => "Store error: "@ + m@,
        AppError::Db(m) => "Database error: "@ + m@,
        AppError::Provider(m) => "Provider error: "@ + m@,
        AppError::Memory(m) => "Memory error: "@ + m@,
    }
}

/// Prefixes `prefix` to `detail`.
pub fn prefixed(prefix: &str, detail: &str) -> (r: String)
    ensures
        r@ == prefix@ + detail@,
{
    let mut s = crate::text::owned(prefix);
    s.append(detail);
    s
}

impl AppError {
    /// The text the error reads as.
    pub fn to_string(&self) -> (r: String)
        ensures
            r@ == display(*self),
    {
        match self {
            AppError::Api(m) => prefixed("API error: ", m.as_str()),
            AppError::Network(m) => prefixed("Network error: ", m.as_str()),
            AppError::Config(m) => prefixed("Config error: ", m.as_str()),
            AppError::Crypto(m) => prefixed("Crypto error: ", m.as_str()),
            AppError::Store(m) => prefixed("Store error: ", m.as_str()),
            AppError::Db(m) => prefixed("Database error: ", m.as_str()),
            AppError::Provider(m) => prefixed("Provider error: ", m.as_str()),
            AppError::Memory(m) => prefixed("Memory error: ", m.as_str()),
        }
    }

    /// A provider failure seen by the application: a `Provider` error whose
    /// detail is the provider error's own text.
    pub fn from_provider_error(err: ProviderError) -> (r: AppError)
        ensures
            r is Provider,
            r->Provider_0@ == provider_error::display(err),
    {
        AppError::Provider(err.to_string())
    }

    /// A response body that could not be parsed as JSON.
    pub fn json_parse(detail: &str) -> (r: AppError)
        ensures
            r is Api,
            r->Api_0@ == "JSON parse error: "@ + detail@,
    {
        AppError::Api(prefixed("JSON parse error: ", detail))
    }
}

impl From<ProviderError> for AppError {
    /// A provider failure seen by the application: a `Provider` error whose
    /// detail is the provider error's own text.
    fn from(err: ProviderError) -> (r: AppError)
        ensures
            r is Provider,
            r->Provider_0@ == provider_error::display(err),
    {
        AppError::from_provider_error(err)
    }
}

impl vstd::std_specs::convert::FromSpecImpl<ProviderError> for AppError {
    /// Two `String`s with the same characters are not provably the same value,
    /// so the conversion is stated by `from_provider_error`'s contract instead.
    open spec fn obeys_from_spec() -> bool {
        false
    }

    open spec fn from_spec(v: ProviderError) -> AppError {
        AppError::Provider(choose|s: String| s@ == provider_error::display(v))
    }
}

} // verus!
