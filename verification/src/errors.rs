use vstd::prelude::*;

verus! {

/// Failure taxonomy of the service core.
///
/// Validation and authorization failures are translated at the boundary into
/// structured responses; internal failures are surfaced opaquely and never
/// carry store-level detail.
#[derive(Clone, Copy, Debug, PartialEq, Eq, Structural)]
pub enum AppError {
    /// Malformed or missing caller input, such as an empty token subject.
    ValidationError,
    /// An update request in which no optional field is present.
    /// A specialised validation failure, kept distinct so callers can
    /// report it precisely.
    NoFieldsToUpdate,
    /// A missing, malformed, forged or expired token, or failed login.
    Unauthorized,
    /// A duplicate email found at signup or at an email change.
    Conflict,
    /// A named entity that does not exist.
    NotFound,
    /// An invariant violation or collaborator failure, such as a valid
    /// token whose subject has no backing identity.
    InternalError,
}

impl AppError {
    /// The stable message text reported for this failure.
    pub fn message(&self) -> (r: &'static str)
        ensures
            r@.len() > 0,
    {
        let m = match self {
            AppError::ValidationError => "invalid input",
            AppError::NoFieldsToUpdate => "no fields to update",
            AppError::Unauthorized => "unauthorized",
            AppError::Conflict => "user with same email already exists",
            AppError::NotFound => "not found",
            AppError::InternalError => "something went wrong",
        };
        proof {
            reveal_strlit("invalid input");
            reveal_strlit("no fields to update");
            reveal_strlit("unauthorized");
            reveal_strlit("user with same email already exists");
            reveal_strlit("not found");
            reveal_strlit("something went wrong");
        }
        m
    }
}

} // verus!
