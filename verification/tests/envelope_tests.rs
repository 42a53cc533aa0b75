use todo_service::ServiceError;

#[test]
fn every_error_has_its_message() {
    assert_eq!(
        ServiceError::MissingAuthHeader.message(),
        "missing or invalid authorization header",
    );
    assert_eq!(ServiceError::InvalidToken.message(), "invalid JWT token");
    assert_eq!(ServiceError::InvalidCredentials.message(), "invalid credentials");
    assert_eq!(ServiceError::TodoNotFound { id: 0 }.message(), "todo with ID: 0 not found");
    assert_eq!(
        ServiceError::TodoNotFound { id: u64::MAX }.message(),
        "todo with ID: 18446744073709551615 not found",
    );
    assert_eq!(ServiceError::NoTodos.message(), "todos does not exist");
    assert_eq!(ServiceError::OffsetBeyondEnd.message(), "exceeds the total page");
    assert_eq!(ServiceError::EmailTaken.message(), "email already exist");
    assert_eq!(ServiceError::Internal.message(), "internal server error");
    assert_eq!(
        ServiceError::Validation { email_invalid: true, password_too_short: false }.message(),
        "validation error",
    );
}

#[test]
fn every_error_echoes_its_status_code() {
    assert_eq!(
        ServiceError::Validation { email_invalid: true, password_too_short: true }.status_code(),
        400,
    );
    assert_eq!(ServiceError::MissingAuthHeader.status_code(), 401);
    assert_eq!(ServiceError::InvalidToken.status_code(), 401);
    assert_eq!(ServiceError::InvalidCredentials.status_code(), 401);
    assert_eq!(ServiceError::TodoNotFound { id: 3 }.status_code(), 404);
    assert_eq!(ServiceError::NoTodos.status_code(), 404);
    assert_eq!(ServiceError::OffsetBeyondEnd.status_code(), 400);
    assert_eq!(ServiceError::EmailTaken.status_code(), 409);
    assert_eq!(ServiceError::Internal.status_code(), 500);
}
