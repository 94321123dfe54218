//! Error kinds reported by the provisioning library.

use vstd::prelude::*;
use vstd::string::StringExecFns;

verus! {

/// One error kind per way a provisioning run can fail: a non-2xx API
/// response, a bad configuration, an authentication failure, a failed local
/// lookup, rate limiting, a transport failure, invalid input, a JSON
/// problem, or an I/O problem. Every variant carries a human-readable detail
/// string.
pub enum ProviderError {
    Api(String),
    Config(String),
    Auth(String),
    NotFound(String),
    RateLimit(String),
    Network(String),
    Validation(String),
    Json(String),
    Io(String),
}

impl ProviderError {
    /// The message prefix announcing the error kind, as shown to users.
    pub open spec fn spec_prefix(&self) -> Seq<char> {
        match self {
            ProviderError::Api(_) => "API error: "@,
            ProviderError::Config(_) => "Configuration error: "@,
            ProviderError::Auth(_) => "Authentication error: "@,
            ProviderError::NotFound(_) => "Resource not found: "@,
            ProviderError::RateLimit(_) => "Rate limit exceeded: "@,
            ProviderError::Network(_) => "Network error: "@,
            ProviderError::Validation(_) => "Validation error: "@,
            ProviderError::Json(_) => "JSON error: "@,
            ProviderError::Io(_) => "IO error: "@,
        }
    }

    /// The detail string carried by the variant.
    pub open spec fn spec_detail(&self) -> Seq<char> {
        match self {
            ProviderError::Api(s) => s@,
            ProviderError::Config(s) => s@,
            ProviderError::Auth(s) => s@,
            ProviderError::NotFound(s) => s@,
            ProviderError::RateLimit(s) => s@,
            ProviderError::Network(s) => s@,
            ProviderError::Validation(s) => s@,
            ProviderError::Json(s) => s@,
            ProviderError::Io(s) => s@,
        }
    }

    /// Renders the error as `<kind prefix><detail>`.
    pub fn message(&self) -> (r: String)
        ensures
            r@ == self.spec_prefix() + self.spec_detail(),
    {
        let mut r = match self {
            ProviderError::Api(_) => String::from_str("API error: "),
            ProviderError::Config(_) => String::from_str("Configuration error: "),
            ProviderError::Auth(_) => String::from_str("Authentication error: "),
            ProviderError::NotFound(_) => String::from_str("Resource not found: "),
            ProviderError::RateLimit(_) => String::from_str("Rate limit exceeded: "),
            ProviderError::Network(_) => String::from_str("Network error: "),
            ProviderError::Validation(_) => String::from_str("Validation error: "),
            ProviderError::Json(_) => String::from_str("JSON error: "),
            ProviderError::Io(_) => String::from_str("IO error: "),
        };
        let detail = match self {
            ProviderError::Api(s) => s,
            ProviderError::Config(s) => s,
            ProviderError::Auth(s) => s,
            ProviderError::NotFound(s) => s,
            ProviderError::RateLimit(s) => s,
            ProviderError::Network(s) => s,
            ProviderError::Validation(s) => s,
            ProviderError::Json(s) => s,
            ProviderError::Io(s) => s,
        };
        r.append(detail.as_str());
        r
    }
}

} // verus!
