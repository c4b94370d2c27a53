use v1::error::{AppError, DbError, ErrorKind, LogLevel};

fn kinds() -> Vec<(AppError, u16, &'static str)> {
    vec![
        (AppError::BadRequest(None), 400, "Bad Request"),
        (AppError::Unauthorized(None), 401, "Unauthorized"),
        (AppError::Forbidden(None), 403, "Forbidden"),
        (AppError::NotFound(None), 404, "Not Found"),
        (AppError::RequestTimeout(None), 408, "Request Timeout"),
        (AppError::Conflict(None), 409, "Conflict"),
        (AppError::ImATeapot(None), 418, "I'm a teapot"),
        (AppError::UnprocessableContent(None), 422, "Unprocessable Entity"),
        (AppError::InternalServerError(None), 500, "Internal Server Error"),
    ]
}

#[test]
fn each_kind_has_its_status_and_phrase() {
    for (e, status, phrase) in kinds() {
        assert_eq!(e.status_code(), status);
        let (s, body) = e.to_response(7);
        assert_eq!(s, status);
        assert_eq!(body.status, status);
        assert_eq!(body.message, phrase);
        assert_eq!(body.timestamp, 7);
        assert!(body.instance.is_none());
    }
}

#[test]
fn server_error_detail_is_logged_not_shown() {
    let e = AppError::InternalServerError(Some(String::from("db password wrong")));
    let (status, body) = e.to_response(1);
    assert_eq!(status, 500);
    assert!(body.detail.is_none());
    let log = e.log_entry();
    assert_eq!(log.level, LogLevel::Error);
    assert_eq!(log.status, 500);
    assert_eq!(log.detail.as_deref(), Some("db password wrong"));
    assert_eq!(e.detail().map(|d| d.as_str()), Some("db password wrong"));
}

#[test]
fn client_error_detail_is_shown() {
    let e = AppError::Conflict(Some(String::from("taken")));
    let (_, body) = e.to_response(1);
    assert_eq!(body.detail.as_deref(), Some("taken"));
    assert_eq!(e.log_entry().level, LogLevel::Warn);
    assert_eq!(e.kind(), ErrorKind::Conflict);
    assert!(AppError::NotFound(None).detail().is_none());
}

fn db(code: &str) -> AppError {
    AppError::from_db_error(DbError::Database {
        code: String::from(code),
        message: String::from("violates something"),
    })
}

fn detail(e: &AppError) -> &str {
    e.detail().unwrap().as_str()
}

#[test]
fn database_failures_are_classified() {
    let e = db("23505");
    assert!(matches!(e, AppError::Conflict(_)));
    assert_eq!(detail(&e), "Duplicate key");
    let e = db("23503");
    assert!(matches!(e, AppError::Conflict(_)));
    assert_eq!(detail(&e), "Foreign-key violation");
    let e = db("23502");
    assert!(matches!(e, AppError::BadRequest(_)));
    assert_eq!(detail(&e), "Null value in column");
    let e = db("23514");
    assert!(matches!(e, AppError::UnprocessableContent(_)));
    assert_eq!(detail(&e), "Check violation");
    let e = db("42P01");
    assert!(matches!(e, AppError::InternalServerError(_)));
    assert_eq!(detail(&e), "Database error (42P01): violates something");
    let e = db("");
    assert_eq!(detail(&e), "Database error (): violates something");
    let e = AppError::from_db_error(DbError::RowNotFound);
    assert!(matches!(e, AppError::NotFound(_)));
    assert_eq!(detail(&e), "Resource not found");
    let e = AppError::from_db_error(DbError::PoolTimedOut);
    assert!(matches!(e, AppError::RequestTimeout(_)));
    assert_eq!(detail(&e), "Database timeout");
}

#[test]
fn other_database_failures_by_their_text() {
    let e = AppError::from_db_error(DbError::Other(String::from("io: connection timeout after 5s")));
    assert!(matches!(e, AppError::RequestTimeout(_)));
    assert_eq!(detail(&e), "Database timeout");
    let e = AppError::from_db_error(DbError::Other(String::from("Timeout")));
    assert!(matches!(e, AppError::InternalServerError(_)));
    assert_eq!(detail(&e), "DB error: Timeout");
}
