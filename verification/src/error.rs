//! The application error taxonomy and the uniform error-response body:
//! every failure maps to one HTTP status, and every error response
//! carries a code and a message.

use vstd::prelude::*;

verus! {

/// The application-level errors, each with its user-facing message.
#[derive(Clone, Debug)]
pub enum AppError {
    BadRequest(String),
    Unauthorized(String),
    Forbidden(String),
    NotFound(String),
    Conflict(String),
    UnprocessableEntity(String),
    InternalServerError(String),
    DatabaseError(String),
    ValidationError(String),
}

impl AppError {
    /// The HTTP status the error maps to.  Validation errors are bad
    /// requests; database errors are internal, with their detail kept
    /// out of the response.
    pub fn status_code(&self) -> (r: u16)
        ensures
            r == self.status_code_spec(),
    {
        match self {
            AppError::BadRequest(_) => 400,
            AppError::Unauthorized(_) => 401,
            AppError::Forbidden(_) => 403,
            AppError::NotFound(_) => 404,
            AppError::Conflict(_) => 409,
            AppError::UnprocessableEntity(_) => 422,
            AppError::InternalServerError(_) => 500,
            AppError::DatabaseError(_) => 500,
            AppError::ValidationError(_) => 400,
        }
    }

    /// The status each variant carries.
    pub open spec fn status_code_spec(&self) -> u16 {
        match self {
            AppError::BadRequest(_) => 400u16,
            AppError::Unauthorized(_) => 401u16,
            AppError::Forbidden(_) => 403u16,
            AppError::NotFound(_) => 404u16,
            AppError::Conflict(_) => 409u16,
            AppError::UnprocessableEntity(_) => 422u16,
            AppError::InternalServerError(_) => 500u16,
            AppError::DatabaseError(_) => 500u16,
            AppError::ValidationError(_) => 400u16,
        }
    }

    /// The machine-readable code of the error.
    pub fn code(&self) -> (r: &'static str)
        ensures
            self is BadRequest ==> r@ == "BAD_REQUEST"@,
            self is Unauthorized ==> r@ == "UNAUTHORIZED"@,
            self is Forbidden ==> r@ == "FORBIDDEN"@,
            self is NotFound ==> r@ == "NOT_FOUND"@,
            self is Conflict ==> r@ == "CONFLICT"@,
            self is UnprocessableEntity ==> r@ == "UNPROCESSABLE_ENTITY"@,
            self is InternalServerError ==> r@ == "INTERNAL_SERVER_ERROR"@,
            self is DatabaseError ==> r@ == "DATABASE_ERROR"@,
            self is ValidationError ==> r@ == "VALIDATION_ERROR"@,
    {
        match self {
            AppError::BadRequest(_) => "BAD_REQUEST",
            AppError::Unauthorized(_) => "UNAUTHORIZED",
            AppError::Forbidden(_) => "FORBIDDEN",
            AppError::NotFound(_) => "NOT_FOUND",
            AppError::Conflict(_) => "CONFLICT",
            AppError::UnprocessableEntity(_) => "UNPROCESSABLE_ENTITY",
            AppError::InternalServerError(_) => "INTERNAL_SERVER_ERROR",
            AppError::DatabaseError(_) => "DATABASE_ERROR",
            AppError::ValidationError(_) => "VALIDATION_ERROR",
        }
    }
}

/// The detail part of an error response.
#[derive(Clone, Debug)]
pub struct ErrorDetail {
    pub code: String,
    pub message: String,
    pub details: Option<String>,
}

/// The uniform error-response body: one `error` object.
#[derive(Clone, Debug)]
pub struct ErrorResponse {
    pub error: ErrorDetail,
}

impl ErrorResponse {
    /// An error response with a code and a message and no details.
    pub fn new(code: &str, message: &str) -> (r: ErrorResponse)
        ensures
            r.error.code@ == code@,
            r.error.message@ == message@,
            r.error.details is None,
    {
        ErrorResponse {
            error: ErrorDetail {
                code: code.to_owned(),
                message: message.to_owned(),
                details: None,
            },
        }
    }

    /// An error response with a code, a message and details.
    pub fn with_details(code: &str, message: &str, details: String) -> (r: ErrorResponse)
        ensures
            r.error.code@ == code@,
            r.error.message@ == message@,
            r.error.details matches Some(d) && d == details,
    {
        ErrorResponse {
            error: ErrorDetail {
                code: code.to_owned(),
                message: message.to_owned(),
                details: Some(details),
            },
        }
    }
}

} // verus!
