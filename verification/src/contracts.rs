//! Integration contracts whose implementations ship with the commercial
//! agreements behind them, and the domain's error vocabulary.

use vstd::prelude::*;

verus! {

/// ABDM (Ayushman Bharat Digital Mission) integration. Requires IRDAI
/// registration as a Health Repository Operator; no operations yet.
pub trait AbdmClient {
}

/// Insurer quote APIs. Requires commercial agreements with the insurers;
/// no operations yet.
pub trait InsurerQuoteProvider {
}

/// Errors surfaced by the domain. Instants are microseconds since the
/// Unix epoch.
#[derive(Debug, PartialEq, Eq)]
pub enum DomainError {
    InvalidCredentials,
    AccountLocked { until: i64 },
    TokenExpired,
    TokenInvalid,
    InsufficientRole { required: String, actual: String },
    PatternEngine(String),
    PhoneVerification(String),
    PdfExtraction(String),
    Translation(String),
    ClaimNotFound(String),
    Encryption,
    DocumentNotFound(String),
    NotFound,
    Conflict(String),
    Validation(String),
}

} // verus!
