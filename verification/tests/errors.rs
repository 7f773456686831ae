use nexus::errors::{forbidden, invalid_payload, invalid_query, ErrorCode, ErrorResponse, NexusError};

#[test]
fn test_error_code_mapping() {
    assert_eq!(NexusError::Internal.code(), ErrorCode::Internal);
    assert_eq!(NexusError::InvalidCredentials.code(), ErrorCode::InvalidCredentials);
    assert_eq!(NexusError::TokenExpired.code(), ErrorCode::TokenExpired);
    assert_eq!(NexusError::UserSuspended.code(), ErrorCode::UserSuspended);
    assert_eq!(NexusError::InvalidOtp.code(), ErrorCode::InvalidOtp);
    assert_eq!(NexusError::InvalidIp.code(), ErrorCode::InvalidIp);
    assert_eq!(NexusError::OutOfDate.code(), ErrorCode::OutOfDate);
    assert_eq!(NexusError::ContentTooLarge.code(), ErrorCode::ContentTooLarge);
}

#[test]
fn test_status_codes() {
    assert_eq!(NexusError::Internal.status_code(), 500);
    assert_eq!(NexusError::InvalidCredentials.status_code(), 401);
    assert_eq!(NexusError::TokenExpired.status_code(), 401);
    assert_eq!(NexusError::UserSuspended.status_code(), 401);
    assert_eq!(NexusError::ContentTooLarge.status_code(), 413);
    assert_eq!(forbidden(None).status_code(), 403);
    assert_eq!(invalid_payload("bad data").status_code(), 400);
    assert_eq!(invalid_query("bad query").status_code(), 400);
    assert_eq!(NexusError::RouteNotFound { path: "/test".to_string() }.status_code(), 404);
    assert_eq!(
        NexusError::MethodNotAllowed { allowed: vec!["GET".into()], current: "DELETE".into() }.status_code(),
        405
    );
}

#[test]
fn test_error_messages() {
    assert_eq!(NexusError::InvalidCredentials.message(), "Invalid user credentials.");
    assert_eq!(forbidden(Some("Admin access required.")).message(), "Admin access required.");
    assert_eq!(forbidden(None).message(), "You don't have permission to access this.");
    assert_eq!(
        invalid_payload("Missing required field: name").message(),
        "Invalid payload. Missing required field: name."
    );
    assert_eq!(
        NexusError::RouteNotFound { path: "/api/v1/test".to_string() }.message(),
        "Route /api/v1/test doesn't exist."
    );
    assert_eq!(NexusError::TokenExpired.message(), "Token expired.");
}

#[test]
fn test_error_response_format() {
    let err = NexusError::InvalidCredentials;
    let response = ErrorResponse::from(&err);
    assert_eq!(response.errors.len(), 1);
    assert_eq!(response.errors[0].message, "Invalid user credentials.");
    assert_eq!(response.errors[0].extensions.code, ErrorCode::InvalidCredentials);
}

#[test]
fn test_error_code_serialization_format() {
    let test_cases = vec![
        (ErrorCode::ContainsNullValues, "CONTAINS_NULL_VALUES"),
        (ErrorCode::ContentTooLarge, "CONTENT_TOO_LARGE"),
        (ErrorCode::Forbidden, "FORBIDDEN"),
        (ErrorCode::Internal, "INTERNAL_SERVER_ERROR"),
        (ErrorCode::InvalidCredentials, "INVALID_CREDENTIALS"),
        (ErrorCode::InvalidPayload, "INVALID_PAYLOAD"),
        (ErrorCode::InvalidQuery, "INVALID_QUERY"),
        (ErrorCode::InvalidToken, "INVALID_TOKEN"),
        (ErrorCode::TokenExpired, "TOKEN_EXPIRED"),
        (ErrorCode::RouteNotFound, "ROUTE_NOT_FOUND"),
        (ErrorCode::ServiceUnavailable, "SERVICE_UNAVAILABLE"),
    ];
    for (code, expected) in test_cases {
        assert_eq!(code.code_name(), expected, "Failed for {:?}", code);
    }
}

#[test]
fn test_helper_functions() {
    match forbidden(Some("test reason")) {
        NexusError::Forbidden { reason } => assert_eq!(reason.unwrap(), "test reason"),
        _ => panic!("Expected Forbidden"),
    }
    match invalid_payload("bad data") {
        NexusError::InvalidPayload { reason } => assert_eq!(reason, "bad data"),
        _ => panic!("Expected InvalidPayload"),
    }
    match invalid_query("invalid filter") {
        NexusError::InvalidQuery { reason } => assert_eq!(reason, "invalid filter"),
        _ => panic!("Expected InvalidQuery"),
    }
}

#[test]
fn test_error_with_fields() {
    let err = NexusError::ContainsNullValues {
        collection: "users".to_string(),
        field: "email".to_string(),
    };
    assert_eq!(err.code(), ErrorCode::ContainsNullValues);
    assert!(err.message().contains("email"));
    assert!(err.message().contains("users"));

    let err = NexusError::RecordNotUnique {
        collection: Some("articles".to_string()),
        field: Some("slug".to_string()),
        value: Some("hello-world".to_string()),
    };
    assert_eq!(err.code(), ErrorCode::RecordNotUnique);
    assert_eq!(err.status_code(), 400);
}

#[test]
fn every_error_status_is_4xx_or_5xx() {
    let errs = vec![
        NexusError::Internal,
        NexusError::InvalidToken,
        NexusError::ServiceUnavailable { service: "db".to_string(), reason: "down".to_string() },
        NexusError::UnsupportedMediaType { media_type: "text/x".to_string(), location: "body".to_string() },
    ];
    for e in errs {
        let s = e.status_code();
        assert!((400..=599).contains(&s));
    }
    assert_eq!(
        NexusError::ServiceUnavailable { service: "db".to_string(), reason: "down".to_string() }.status_code(),
        503
    );
}
