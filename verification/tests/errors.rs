use rust_at_one::error::AppError;

#[test]
fn status_of_each_error() {
    assert_eq!(AppError::InternalServerError("x".to_string()).status_code(), 500);
    assert_eq!(AppError::IOError("x".to_string()).status_code(), 503);
    assert_eq!(AppError::DbError("x".to_string()).status_code(), 503);
    assert_eq!(AppError::SSLError("x".to_string()).status_code(), 503);
    assert_eq!(AppError::BadRequest("x".to_string()).status_code(), 400);
    assert_eq!(AppError::NotFound("x".to_string()).status_code(), 404);
    assert_eq!(AppError::Forbidden.status_code(), 403);
}

#[test]
fn message_of_each_error() {
    assert_eq!(AppError::InternalServerError("a".to_string()).message(), "a");
    assert_eq!(AppError::IOError("b".to_string()).message(), "b");
    assert_eq!(AppError::DbError("c".to_string()).message(), "c");
    assert_eq!(AppError::SSLError("d".to_string()).message(), "d");
    assert_eq!(AppError::BadRequest("e".to_string()).message(), "e");
    assert_eq!(AppError::NotFound("f".to_string()).message(), "f");
    assert_eq!(AppError::Forbidden.message(), "You are unauthorized to access this data");
}

#[test]
fn error_body_holds_message_and_status() {
    let body = AppError::NotFound("nothing here".to_string()).error_response();
    assert_eq!(body.message, "nothing here");
    assert_eq!(body.status, 404);
    let body = AppError::Forbidden.error_response();
    assert_eq!(body.message, "You are unauthorized to access this data");
    assert_eq!(body.status, 403);
}
