use pulsemetrics_backend::error::AppError;

#[test]
fn test_bad_request_status_code() {
    let error = AppError::BadRequest("test".to_string());
    assert_eq!(error.status_code(), 400);
}

#[test]
fn test_unauthorized_status_code() {
    let error = AppError::Unauthorized("test".to_string());
    assert_eq!(error.status_code(), 401);
}

#[test]
fn test_not_found_status_code() {
    let error = AppError::NotFound("test".to_string());
    assert_eq!(error.status_code(), 404);
}

#[test]
fn test_rate_limited_status_code() {
    let error = AppError::RateLimited;
    assert_eq!(error.status_code(), 429);
}

#[test]
fn test_all_nine_status_codes() {
    let d = || "d".to_string();
    assert_eq!(AppError::BadRequest(d()).status_code(), 400);
    assert_eq!(AppError::Unauthorized(d()).status_code(), 401);
    assert_eq!(AppError::NotFound(d()).status_code(), 404);
    assert_eq!(AppError::Conflict(d()).status_code(), 409);
    assert_eq!(AppError::UnprocessableEntity(d()).status_code(), 422);
    assert_eq!(AppError::RateLimited.status_code(), 429);
    assert_eq!(AppError::Database(d()).status_code(), 500);
    assert_eq!(AppError::Validation(d()).status_code(), 400);
    assert_eq!(AppError::Internal(d()).status_code(), 500);
}

#[test]
fn test_error_codes() {
    let d = || "d".to_string();
    assert_eq!(AppError::BadRequest(d()).error_code(), "BAD_REQUEST");
    assert_eq!(AppError::Unauthorized(d()).error_code(), "UNAUTHORIZED");
    assert_eq!(AppError::NotFound(d()).error_code(), "NOT_FOUND");
    assert_eq!(AppError::Conflict(d()).error_code(), "CONFLICT");
    assert_eq!(AppError::UnprocessableEntity(d()).error_code(), "UNPROCESSABLE_ENTITY");
    assert_eq!(AppError::RateLimited.error_code(), "RATE_LIMITED");
    assert_eq!(AppError::Database(d()).error_code(), "DATABASE_ERROR");
    assert_eq!(AppError::Validation(d()).error_code(), "VALIDATION_ERROR");
    assert_eq!(AppError::Internal(d()).error_code(), "INTERNAL_ERROR");
}

#[test]
fn test_detail_passed_through_for_client_errors() {
    assert_eq!(AppError::BadRequest("why it failed".to_string()).message(), "why it failed");
    assert_eq!(AppError::Unauthorized("missing header".to_string()).message(), "missing header");
    assert_eq!(AppError::Validation("rule broken".to_string()).message(), "rule broken");
}

#[test]
fn test_internal_detail_redacted() {
    let db = AppError::Database("connection refused to host 10.0.0.5".to_string());
    assert_eq!(db.message(), "An internal error occurred");
    let internal = AppError::Internal("stack trace with secrets".to_string());
    assert_eq!(internal.message(), "An internal error occurred");
    let limited = AppError::RateLimited;
    assert_eq!(limited.message(), "Rate limit exceeded");
}

#[test]
fn test_body_json_shape() {
    let e = AppError::NotFound("no such project".to_string());
    assert_eq!(
        e.body_json(),
        "{\"error\":{\"code\":\"NOT_FOUND\",\"message\":\"no such project\"}}"
    );
}

#[test]
fn test_body_json_redacts_internal_detail() {
    let e = AppError::Database("connection pool exhausted at db-internal:5432".to_string());
    assert_eq!(
        e.body_json(),
        "{\"error\":{\"code\":\"DATABASE_ERROR\",\"message\":\"An internal error occurred\"}}"
    );
}

#[test]
fn test_body_json_escapes_message() {
    let e = AppError::BadRequest("he said \"hi\"\\\n\t\u{1}".to_string());
    assert_eq!(
        e.body_json(),
        "{\"error\":{\"code\":\"BAD_REQUEST\",\"message\":\"he said \\\"hi\\\"\\\\\\n\\t\\u0001\"}}"
    );
}

#[test]
fn test_body_json_escaping_matches_reference_encoder() {
    let msg = "line1\nline2 \"q\" \\ back\u{8}\u{c}\r\t \u{1f}\u{7f} plain déjà-vu \u{1f600}";
    let e = AppError::BadRequest(msg.to_string());
    let expected = format!(
        "{{\"error\":{{\"code\":\"BAD_REQUEST\",\"message\":{}}}}}",
        serde_json::to_string(msg).unwrap()
    );
    assert_eq!(e.body_json(), expected);
}
