//! The error type for client assembly.

use vstd::prelude::*;

verus! {

/// The main error type for client assembly.
///
/// Every failure is detected synchronously during assembly and returned
/// to the immediate caller; nothing is retried or recovered.
#[derive(Debug, Clone)]
pub enum Error {
    /// The base URL was empty at assembly time.
    MissingUrl,
    /// The API key was empty at assembly time.
    MissingKey,
    /// A header name or value failed syntactic validation; carries the
    /// offending name or value.
    InvalidHeader(String),
    /// The underlying HTTP capability refused construction; carries its
    /// own description of the failure.
    CapabilityConstructionFailed(String),
}

impl Error {
    /// A human-readable description of the failure.
    pub fn message(&self) -> (r: String)
        ensures
            match self {
                Error::MissingUrl => r@ == "URL is required"@,
                Error::MissingKey => r@ == "API key is required"@,
                Error::InvalidHeader(s) => r@ == "invalid header: "@ + s@,
                Error::CapabilityConstructionFailed(s) => r@
                    == "could not construct a capability: "@ + s@,
            },
    {
        match self {
            Error::MissingUrl => String::from_str("URL is required"),
            Error::MissingKey => String::from_str("API key is required"),
            Error::InvalidHeader(s) => String::from_str("invalid header: ").concat(s.as_str()),
            Error::CapabilityConstructionFailed(s) => String::from_str(
                "could not construct a capability: ",
            ).concat(s.as_str()),
        }
    }
}

} // verus!
