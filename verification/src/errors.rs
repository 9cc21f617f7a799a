//! The single error taxonomy that every operation of the crate reports.

use vstd::prelude::*;

verus! {

/// Every operation returns either a success value or one of these errors.
/// Gate rejections (`Unauthenticated`, `InsufficientRole`,
/// `SelfActionForbidden`) are terminal: never retried, never downgraded.
#[derive(Debug, Clone, PartialEq, Eq)]
pub enum AppError {
    /// The bearer token is missing, unknown or expired. One undifferentiated
    /// reason on purpose: callers must not learn whether a token ever existed.
    Unauthenticated,
    /// The resolved subject does not hold the role the operation demands.
    InsufficientRole,
    /// The operation may not be applied by a subject to itself.
    SelfActionForbidden,
    /// The row is absent or not owned by the caller.
    NotFound,
    /// A uniqueness rule was violated, e.g. a duplicate identity on create.
    Conflict,
    /// No external-service credential is saved for the caller.
    NotConfigured,
    /// The external text-generation service failed; carries its raw payload.
    ExternalServiceError(String),
    /// The service reply failed structural validation; carries the raw text.
    MalformedSuggestions(String),
    /// Malformed caller input, e.g. an unparsable time string.
    ValidationError(String),
}

/// What `AppError::message` returns for each variant.
pub open spec fn message_spec(e: AppError) -> Seq<char> {
    match e {
        AppError::Unauthenticated => "session invalid or expired"@,
        AppError::InsufficientRole => "insufficient role"@,
        AppError::SelfActionForbidden => "operation may not target yourself"@,
        AppError::NotFound => "not found"@,
        AppError::Conflict => "already exists"@,
        AppError::NotConfigured => "external service is not configured"@,
        AppError::ExternalServiceError(p) => "external service error: "@ + p@,
        AppError::MalformedSuggestions(p) => "malformed suggestions: "@ + p@,
        AppError::ValidationError(p) => "invalid input: "@ + p@,
    }
}

impl AppError {
    /// The single human-readable string surfaced toward callers.
    pub fn message(&self) -> (r: String)
        ensures
            r@ == message_spec(*self),
    {
        match self {
            AppError::Unauthenticated => "session invalid or expired".to_owned(),
            AppError::InsufficientRole => "insufficient role".to_owned(),
            AppError::SelfActionForbidden => "operation may not target yourself".to_owned(),
            AppError::NotFound => "not found".to_owned(),
            AppError::Conflict => "already exists".to_owned(),
            AppError::NotConfigured => "external service is not configured".to_owned(),
            AppError::ExternalServiceError(p) => {
                let mut s = "external service error: ".to_owned();
                s.append(p.as_str());
                s
            },
            AppError::MalformedSuggestions(p) => {
                let mut s = "malformed suggestions: ".to_owned();
                s.append(p.as_str());
                s
            },
            AppError::ValidationError(p) => {
                let mut s = "invalid input: ".to_owned();
                s.append(p.as_str());
                s
            },
        }
    }
}

} // verus!
