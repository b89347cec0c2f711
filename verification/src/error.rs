//! The error taxonomy of the service.

use vstd::prelude::*;

verus! {

/// An error of the service. Configuration errors fall back to defaults,
/// fetch errors degrade to the sentinel fingerprint; neither is fatal.
#[derive(Debug)]
pub enum ReporteerError {
    /// A network or transport failure while retrieving the secret.
    FetchError(String),
    /// An invalid configuration value.
    ConfigError(String),
    /// Any other internal failure.
    InternalError(String),
}

impl ReporteerError {
    /// The human-readable rendering of the error.
    pub fn message(&self) -> (m: String)
        ensures
            self matches ReporteerError::FetchError(s) ==> m@ == "Failed to fetch derived key: "@
                + s@,
            self matches ReporteerError::ConfigError(s) ==> m@ == "Configuration error: "@ + s@,
            self matches ReporteerError::InternalError(s) ==> m@ == "Internal error: "@ + s@,
    {
        match self {
            ReporteerError::FetchError(s) => {
                let mut m = String::from_str("Failed to fetch derived key: ");
                m.append(s.as_str());
                m
            },
            ReporteerError::ConfigError(s) => {
                let mut m = String::from_str("Configuration error: ");
                m.append(s.as_str());
                m
            },
            ReporteerError::InternalError(s) => {
                let mut m = String::from_str("Internal error: ");
                m.append(s.as_str());
                m
            },
        }
    }
}

} // verus!
