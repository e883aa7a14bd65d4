//! The error taxonomy: a closed set of failure kinds, each with a stable
//! machine-readable code, an HTTP status code, and a policy for whether its
//! detail is safe to expose to the caller. Datastore and unexpected internal
//! failures are never echoed beyond a fixed generic message.

use crate::render::{append_json_escaped, spec_json_escape};
use vstd::prelude::*;
use vstd::string::StringExecFns;

verus! {

/// A failure on the request path, carrying the human-readable detail it was
/// constructed with. Immutable once constructed; the sole vehicle for turning
/// internal failures into client-visible responses.
#[derive(Debug, Clone)]
pub enum AppError {
    BadRequest(String),
    Unauthorized(String),
    NotFound(String),
    Conflict(String),
    UnprocessableEntity(String),
    RateLimited,
    Database(String),
    Validation(String),
    Internal(String),
}

/// Result of a step on the request path.
pub type AppResult<T> = Result<T, AppError>;

/// The HTTP status code of each error kind.
pub open spec fn spec_status_code(e: AppError) -> u16 {
    match e {
        AppError::BadRequest(_) => 400,
        AppError::Unauthorized(_) => 401,
        AppError::NotFound(_) => 404,
        AppError::Conflict(_) => 409,
        AppError::UnprocessableEntity(_) => 422,
        AppError::RateLimited => 429,
        AppError::Database(_) => 500,
        AppError::Validation(_) => 400,
        AppError::Internal(_) => 500,
    }
}

/// The stable machine-readable code of each error kind.
pub open spec fn spec_error_code(e: AppError) -> Seq<char> {
    match e {
        AppError::BadRequest(_) => "BAD_REQUEST"@,
        AppError::Unauthorized(_) => "UNAUTHORIZED"@,
        AppError::NotFound(_) => "NOT_FOUND"@,
        AppError::Conflict(_) => "CONFLICT"@,
        AppError::UnprocessableEntity(_) => "UNPROCESSABLE_ENTITY"@,
        AppError::RateLimited => "RATE_LIMITED"@,
        AppError::Database(_) => "DATABASE_ERROR"@,
        AppError::Validation(_) => "VALIDATION_ERROR"@,
        AppError::Internal(_) => "INTERNAL_ERROR"@,
    }
}

/// The message shown to the caller: the constructed detail, except that rate
/// limiting has a fixed message and datastore or internal failures are
/// replaced by a generic one.
pub open spec fn spec_message(e: AppError) -> Seq<char> {
    match e {
        AppError::BadRequest(d) => d@,
        AppError::Unauthorized(d) => d@,
        AppError::NotFound(d) => d@,
        AppError::Conflict(d) => d@,
        AppError::UnprocessableEntity(d) => d@,
        AppError::RateLimited => "Rate limit exceeded"@,
        AppError::Database(_) => "An internal error occurred"@,
        AppError::Validation(d) => d@,
        AppError::Internal(_) => "An internal error occurred"@,
    }
}

/// The structured response body of each error kind:
/// `{"error":{"code":"<CODE>","message":"<message>"}}`, with the message
/// escaped as JSON requires.
pub open spec fn spec_body_json(e: AppError) -> Seq<char> {
    "{\"error\":{\"code\":\""@ + spec_error_code(e) + "\",\"message\":\""@ + spec_json_escape(
        spec_message(e),
    ) + "\"}}"@
}

impl AppError {
    /// The HTTP status code this error is reported with.
    pub fn status_code(&self) -> (r: u16)
        ensures
            r == spec_status_code(*self),
    {
        match self {
            AppError::BadRequest(_) => 400,
            AppError::Unauthorized(_) => 401,
            AppError::NotFound(_) => 404,
            AppError::Conflict(_) => 409,
            AppError::UnprocessableEntity(_) => 422,
            AppError::RateLimited => 429,
            AppError::Database(_) => 500,
            AppError::Validation(_) => 400,
            AppError::Internal(_) => 500,
        }
    }

    /// The stable code clients may branch on.
    pub fn error_code(&self) -> (r: &'static str)
        ensures
            r@ == spec_error_code(*self),
    {
        match self {
            AppError::BadRequest(_) => "BAD_REQUEST",
            AppError::Unauthorized(_) => "UNAUTHORIZED",
            AppError::NotFound(_) => "NOT_FOUND",
            AppError::Conflict(_) => "CONFLICT",
            AppError::UnprocessableEntity(_) => "UNPROCESSABLE_ENTITY",
            AppError::RateLimited => "RATE_LIMITED",
            AppError::Database(_) => "DATABASE_ERROR",
            AppError::Validation(_) => "VALIDATION_ERROR",
            AppError::Internal(_) => "INTERNAL_ERROR",
        }
    }

    /// The message shown to the caller, redacted for internal failures.
    pub fn message(&self) -> (r: String)
        ensures
            r@ == spec_message(*self),
    {
        match self {
            AppError::BadRequest(d) => d.clone(),
            AppError::Unauthorized(d) => d.clone(),
            AppError::NotFound(d) => d.clone(),
            AppError::Conflict(d) => d.clone(),
            AppError::UnprocessableEntity(d) => d.clone(),
            AppError::RateLimited => String::from_str("Rate limit exceeded"),
            AppError::Database(_) => String::from_str("An internal error occurred"),
            AppError::Validation(d) => d.clone(),
            AppError::Internal(_) => String::from_str("An internal error occurred"),
        }
    }

    /// The structured JSON body of the HTTP response for this error.
    pub fn body_json(&self) -> (r: String)
        ensures
            r@ == spec_body_json(*self),
    {
        let mut s = String::new();
        s.append("{\"error\":{\"code\":\"");
        s.append(self.error_code());
        s.append("\",\"message\":\"");
        let message = self.message();
        append_json_escaped(&mut s, message.as_str());
        s.append("\"}}");
        proof {
            assert(s@ =~= spec_body_json(*self));
        }
        s
    }
}

/// Law: each error kind maps to exactly its documented status code.
pub proof fn lemma_status_code_table(e: AppError)
    ensures
        e is BadRequest ==> spec_status_code(e) == 400,
        e is Unauthorized ==> spec_status_code(e) == 401,
        e is NotFound ==> spec_status_code(e) == 404,
        e is Conflict ==> spec_status_code(e) == 409,
        e is UnprocessableEntity ==> spec_status_code(e) == 422,
        e is RateLimited ==> spec_status_code(e) == 429,
        e is Database ==> spec_status_code(e) == 500,
        e is Validation ==> spec_status_code(e) == 400,
        e is Internal ==> spec_status_code(e) == 500,
{
}

/// Law: the detail a datastore or internal failure was constructed with never
/// reaches the caller; the message, and with it the whole response body, is
/// the same whatever the detail holds.
pub proof fn lemma_internal_detail_redacted(d1: String, d2: String)
    ensures
        spec_message(AppError::Database(d1)) == "An internal error occurred"@,
        spec_message(AppError::Internal(d1)) == "An internal error occurred"@,
        spec_body_json(AppError::Database(d1)) == spec_body_json(AppError::Database(d2)),
        spec_body_json(AppError::Internal(d1)) == spec_body_json(AppError::Internal(d2)),
{
}

} // verus!
