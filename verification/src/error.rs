//! The error kinds that every engine operation reports.

use vstd::prelude::*;

verus! {

/// Why an operation was refused.
#[derive(Debug, Clone, PartialEq, Eq)]
pub enum AppError {
    /// No valid principal came with the request.
    Unauthorized,
    /// The principal does not own the entity.
    Forbidden,
    /// The entity is unknown.
    NotFound(String),
    /// A rule of the game forbids the operation on the current state.
    BadRequest(String),
    /// A unique key is already taken.
    Conflict(String),
    /// An invariant broke after the store accepted the change.
    InternalError,
    /// The store was unavailable.
    DatabaseError,
    /// The input has the wrong shape.
    ValidationError(String),
}

pub type AppResult<T> = Result<T, AppError>;

impl AppError {
    /// The HTTP status that stands for the kind.
    pub open spec fn spec_status_code(&self) -> int {
        match self {
            AppError::Unauthorized => 401,
            AppError::Forbidden => 403,
            AppError::NotFound(_) => 404,
            AppError::BadRequest(_) => 400,
            AppError::Conflict(_) => 409,
            AppError::ValidationError(_) => 422,
            AppError::InternalError | AppError::DatabaseError => 500,
        }
    }

    /// The text shown to the client; internal failures show a generic one.
    pub open spec fn spec_message(&self) -> Seq<char> {
        match self {
            AppError::Unauthorized => "Authentication required"@,
            AppError::Forbidden => "Access denied"@,
            AppError::NotFound(m) => m@,
            AppError::BadRequest(m) => m@,
            AppError::Conflict(m) => m@,
            AppError::ValidationError(m) => m@,
            AppError::InternalError | AppError::DatabaseError => "Internal server error"@,
        }
    }

    pub open spec fn is_not_found(&self, text: Seq<char>) -> bool {
        self matches AppError::NotFound(m) && m@ == text
    }

    pub open spec fn is_bad_request(&self, text: Seq<char>) -> bool {
        self matches AppError::BadRequest(m) && m@ == text
    }

    pub open spec fn is_conflict(&self, text: Seq<char>) -> bool {
        self matches AppError::Conflict(m) && m@ == text
    }

    pub fn not_found(text: &str) -> (e: AppError)
        ensures
            e.is_not_found(text@),
    {
        AppError::NotFound(text.to_owned())
    }

    pub fn bad_request(text: &str) -> (e: AppError)
        ensures
            e.is_bad_request(text@),
    {
        AppError::BadRequest(text.to_owned())
    }

    pub fn conflict(text: &str) -> (e: AppError)
        ensures
            e.is_conflict(text@),
    {
        AppError::Conflict(text.to_owned())
    }

    pub fn status_code(&self) -> (code: u16)
        ensures
            code == self.spec_status_code(),
    {
        match self {
            AppError::Unauthorized => 401,
            AppError::Forbidden => 403,
            AppError::NotFound(_) => 404,
            AppError::BadRequest(_) => 400,
            AppError::Conflict(_) => 409,
            AppError::ValidationError(_) => 422,
            AppError::InternalError | AppError::DatabaseError => 500,
        }
    }

    pub fn message(&self) -> (text: String)
        ensures
            text@ == self.spec_message(),
    {
        match self {
            AppError::Unauthorized => "Authentication required".to_owned(),
            AppError::Forbidden => "Access denied".to_owned(),
            AppError::NotFound(m) => m.clone(),
            AppError::BadRequest(m) => m.clone(),
            AppError::Conflict(m) => m.clone(),
            AppError::ValidationError(m) => m.clone(),
            AppError::InternalError | AppError::DatabaseError => "Internal server error".to_owned(),
        }
    }
}

} // verus!
