use tira::errors::{ErrorKind, TiraError};

#[test]
fn every_kind_has_its_status_code() {
    assert_eq!(ErrorKind::Unauthenticated.status_code(), 401);
    assert_eq!(ErrorKind::SessionExpired.status_code(), 401);
    assert_eq!(ErrorKind::InvalidCredentials.status_code(), 401);
    assert_eq!(ErrorKind::ValidationError.status_code(), 400);
    assert_eq!(ErrorKind::ConsistencyError.status_code(), 500);
    assert_eq!(ErrorKind::StorageError.status_code(), 500);
    assert_eq!(ErrorKind::DeliveryError.status_code(), 500);
    assert_eq!(ErrorKind::Internal.status_code(), 500);
}

#[test]
fn an_error_keeps_its_kind_and_message() {
    let e = TiraError::new(ErrorKind::ValidationError, "Subject can not be empty");
    assert_eq!(e.kind, ErrorKind::ValidationError);
    assert_eq!(e.message, "Subject can not be empty");
    assert_eq!(e.status_code(), 400);
}

#[test]
fn a_client_error_shows_its_message() {
    let e = TiraError::new(ErrorKind::Unauthenticated, "User not authenticated");
    assert_eq!(e.into_response(), (401, "User not authenticated".to_string()));
    let e = TiraError::new(ErrorKind::ValidationError, "Comment cannot be blank!");
    assert_eq!(e.into_response(), (400, "Comment cannot be blank!".to_string()));
}

#[test]
fn a_failure_of_the_service_shows_no_detail() {
    let e = TiraError::new(ErrorKind::StorageError, "connection refused by 10.0.0.7");
    assert_eq!(e.into_response(), (500, "Something went wrong".to_string()));
    let e = TiraError::new(ErrorKind::ConsistencyError, "No rows affected");
    assert_eq!(e.into_response(), (500, "Something went wrong".to_string()));
    let e = TiraError::new(ErrorKind::DeliveryError, "Could not send email");
    assert_eq!(e.into_response(), (500, "Something went wrong".to_string()));
}
