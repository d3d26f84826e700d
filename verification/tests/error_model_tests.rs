//! The error taxonomy and the uniform response body.

use helpernote::accounts::{AuthResponse, UserInfo};
use helpernote::error::{AppError, ErrorResponse};

#[test]
fn test_error_response_creation() {
    let error = ErrorResponse::new("TEST_ERROR", "Test error message");

    assert_eq!(error.error.code, "TEST_ERROR");
    assert_eq!(error.error.message, "Test error message");
    assert!(error.error.details.is_none());
}

#[test]
fn test_error_response_with_details() {
    let details = "{\"field\":\"email\",\"reason\":\"invalid format\"}".to_string();

    let error = ErrorResponse::with_details("VALIDATION_ERROR", "Invalid input", details.clone());

    assert_eq!(error.error.code, "VALIDATION_ERROR");
    assert_eq!(error.error.message, "Invalid input");
    assert_eq!(error.error.details, Some(details));
}

#[test]
fn test_app_error_bad_request() {
    let error = AppError::BadRequest("Invalid request".to_string());
    assert_eq!(error.status_code(), 400);
}

#[test]
fn test_app_error_unauthorized() {
    let error = AppError::Unauthorized("Not authenticated".to_string());
    assert_eq!(error.status_code(), 401);
}

#[test]
fn test_app_error_not_found() {
    let error = AppError::NotFound("Resource not found".to_string());
    assert_eq!(error.status_code(), 404);
}

#[test]
fn every_variant_maps_to_its_status_and_code() {
    assert_eq!(AppError::Forbidden("x".to_string()).status_code(), 403);
    assert_eq!(AppError::Conflict("x".to_string()).status_code(), 409);
    assert_eq!(
        AppError::UnprocessableEntity("x".to_string()).status_code(),
        422
    );
    assert_eq!(
        AppError::InternalServerError("x".to_string()).status_code(),
        500
    );
    assert_eq!(AppError::DatabaseError("x".to_string()).status_code(), 500);
    assert_eq!(AppError::ValidationError("x".to_string()).status_code(), 400);
    assert_eq!(AppError::Conflict("x".to_string()).code(), "CONFLICT");
    assert_eq!(
        AppError::DatabaseError("x".to_string()).code(),
        "DATABASE_ERROR"
    );
}

#[test]
fn test_auth_response_structure() {
    let response = AuthResponse {
        user: UserInfo {
            id: 1,
            username: "testuser".to_string(),
        },
    };

    assert_eq!(response.user.id, 1);
    assert_eq!(response.user.username, "testuser");
}

#[test]
fn test_error_response_structure() {
    let error = ErrorResponse::new("UNAUTHORIZED", "Invalid credentials");

    assert_eq!(error.error.code, "UNAUTHORIZED");
    assert_eq!(error.error.message, "Invalid credentials");
}
