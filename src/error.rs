//! The error type shared by the whole service, its HTTP status mapping, the
//! response body and log entry made from it, and the classification of
//! database failures.
use crate::dto::ApiError;
use crate::text::{contains_str, has_infix, str_eq};
use vstd::prelude::*;

verus! {

/// The kind of an [`AppError`], without its detail.
#[derive(Clone, Copy, Debug, PartialEq, Eq, Structural)]
pub enum ErrorKind {
    BadRequest,
    Unauthorized,
    Forbidden,
    NotFound,
    RequestTimeout,
    Conflict,
    ImATeapot,
    UnprocessableContent,
    InternalServerError,
}

/// Severity of a log record.
#[derive(Clone, Copy, Debug, PartialEq, Eq, Structural)]
pub enum LogLevel {
    Error,
    Warn,
    Info,
    Debug,
    Trace,
}

/// The error of every fallible operation of the service. Each kind stands for
/// one HTTP status and carries an optional detail.
#[derive(Debug)]
pub enum AppError {
    BadRequest(Option<String>),
    Unauthorized(Option<String>),
    Forbidden(Option<String>),
    NotFound(Option<String>),
    RequestTimeout(Option<String>),
    Conflict(Option<String>),
    ImATeapot(Option<String>),
    /// A validation failure.
    UnprocessableContent(Option<String>),
    InternalServerError(Option<String>),
}

/// Result type used throughout the service.
pub type AppResult<T> = Result<T, AppError>;

/// The characters of an optional string.
pub open spec fn opt_view(o: Option<String>) -> Option<Seq<char>> {
    match o {
        Some(s) => Some(s@),
        None => None,
    }
}

impl View for AppError {
    /// The kind and the detail's characters.
    type V = (ErrorKind, Option<Seq<char>>);

    open spec fn view(&self) -> (ErrorKind, Option<Seq<char>>) {
        match self {
            AppError::BadRequest(d) => (ErrorKind::BadRequest, opt_view(*d)),
            AppError::Unauthorized(d) => (ErrorKind::Unauthorized, opt_view(*d)),
            AppError::Forbidden(d) => (ErrorKind::Forbidden, opt_view(*d)),
            AppError::NotFound(d) => (ErrorKind::NotFound, opt_view(*d)),
            AppError::RequestTimeout(d) => (ErrorKind::RequestTimeout, opt_view(*d)),
            AppError::Conflict(d) => (ErrorKind::Conflict, opt_view(*d)),
            AppError::ImATeapot(d) => (ErrorKind::ImATeapot, opt_view(*d)),
            AppError::UnprocessableContent(d) => (ErrorKind::UnprocessableContent, opt_view(*d)),
            AppError::InternalServerError(d) => (ErrorKind::InternalServerError, opt_view(*d)),
        }
    }
}

/// The HTTP status of each kind.
pub open spec fn status_of(k: ErrorKind) -> u16 {
    match k {
        ErrorKind::BadRequest => 400,
        ErrorKind::Unauthorized => 401,
        ErrorKind::Forbidden => 403,
        ErrorKind::NotFound => 404,
        ErrorKind::RequestTimeout => 408,
        ErrorKind::Conflict => 409,
        ErrorKind::ImATeapot => 418,
        ErrorKind::UnprocessableContent => 422,
        ErrorKind::InternalServerError => 500,
    }
}

/// Whether `status` is in the server-error class (5xx).
pub open spec fn is_server_status(status: u16) -> bool {
    500 <= status < 600
}

/// The canonical reason phrase of the statuses that the error kinds use.
pub open spec fn reason_phrase(status: u16) -> Option<Seq<char>> {
    if status == 400 {
        Some("Bad Request"@)
    } else if status == 401 {
        Some("Unauthorized"@)
    } else if status == 403 {
        Some("Forbidden"@)
    } else if status == 404 {
        Some("Not Found"@)
    } else if status == 408 {
        Some("Request Timeout"@)
    } else if status == 409 {
        Some("Conflict"@)
    } else if status == 418 {
        Some("I'm a teapot"@)
    } else if status == 422 {
        Some("Unprocessable Entity"@)
    } else if status == 500 {
        Some("Internal Server Error"@)
    } else {
        None
    }
}

/// The severity with which an error of kind `k` is logged.
pub open spec fn level_of(k: ErrorKind) -> LogLevel {
    if is_server_status(status_of(k)) {
        LogLevel::Error
    } else {
        LogLevel::Warn
    }
}

/// The detail that a client sees: none for server errors.
pub open spec fn public_detail(e: (ErrorKind, Option<Seq<char>>)) -> Option<Seq<char>> {
    if is_server_status(status_of(e.0)) {
        None
    } else {
        e.1
    }
}

/// The detail that the log records: all of it.
pub open spec fn logged_detail(e: (ErrorKind, Option<Seq<char>>)) -> Option<Seq<char>> {
    e.1
}

/// Relies on http's `StatusCode::canonical_reason` (reached through
/// `StatusCode::from_u16`): the reason phrase of a registered status.
#[verifier::external_body]
fn canonical_reason(status: u16) -> (r: Option<&'static str>)
    ensures
        reason_phrase(status) is Some ==> r is Some && reason_phrase(status) == Some(r.unwrap()@),
{
    match axum::http::StatusCode::from_u16(status) {
        Ok(code) => code.canonical_reason(),
        Err(_) => None,
    }
}

/// What the service records in its log for an error.
#[derive(Debug)]
pub struct LogEntry {
    pub level: LogLevel,
    pub status: u16,
    /// The error's full detail, whatever the client sees.
    pub detail: Option<String>,
}

impl AppError {
    /// The kind of this error.
    pub fn kind(&self) -> (r: ErrorKind)
        ensures
            r == self@.0,
    {
        match self {
            AppError::BadRequest(_) => ErrorKind::BadRequest,
            AppError::Unauthorized(_) => ErrorKind::Unauthorized,
            AppError::Forbidden(_) => ErrorKind::Forbidden,
            AppError::NotFound(_) => ErrorKind::NotFound,
            AppError::RequestTimeout(_) => ErrorKind::RequestTimeout,
            AppError::Conflict(_) => ErrorKind::Conflict,
            AppError::ImATeapot(_) => ErrorKind::ImATeapot,
            AppError::UnprocessableContent(_) => ErrorKind::UnprocessableContent,
            AppError::InternalServerError(_) => ErrorKind::InternalServerError,
        }
    }

    /// The HTTP status of this error.
    pub fn status_code(&self) -> (r: u16)
        ensures
            r == status_of(self@.0),
    {
        match self {
            AppError::BadRequest(_) => 400,
            AppError::Unauthorized(_) => 401,
            AppError::Forbidden(_) => 403,
            AppError::NotFound(_) => 404,
            AppError::RequestTimeout(_) => 408,
            AppError::Conflict(_) => 409,
            AppError::ImATeapot(_) => 418,
            AppError::UnprocessableContent(_) => 422,
            AppError::InternalServerError(_) => 500,
        }
    }

    /// The detail attached to this error, if any.
    pub fn detail(&self) -> (r: Option<&String>)
        ensures
            match r {
                Some(d) => self@.1 == Some(d@),
                None => self@.1 is None,
            },
    {
        match self {
            AppError::BadRequest(d)
            | AppError::Unauthorized(d)
            | AppError::Forbidden(d)
            | AppError::NotFound(d)
            | AppError::RequestTimeout(d)
            | AppError::Conflict(d)
            | AppError::ImATeapot(d)
            | AppError::UnprocessableContent(d)
            | AppError::InternalServerError(d) => d.as_ref(),
        }
    }

    /// The status and the body of the response for this error. A server
    /// error's body carries no detail; a client error's carries its detail as is.
    pub fn to_response(&self, timestamp: i64) -> (r: (u16, ApiError))
        ensures
            r.0 == status_of(self@.0),
            r.1.status == r.0,
            reason_phrase(r.0) == Some(r.1.message@),
            opt_view(r.1.detail) == public_detail(self@),
            r.1.instance is None,
            r.1.timestamp == timestamp,
    {
        let status = self.status_code();
        let server = 500 <= status && status < 600;
        let message = match canonical_reason(status) {
            Some(m) => String::from_str(m),
            None => {
                if server {
                    String::from_str("Internal Server Error")
                } else {
                    String::from_str("Error")
                }
            },
        };
        let detail = if server {
            None
        } else {
            match self.detail() {
                Some(d) => Some(d.clone()),
                None => None,
            }
        };
        (status, ApiError { status, message, detail, instance: None, timestamp })
    }

    /// The log record for this error: server errors at error severity, the
    /// others at warning severity, always with the full detail.
    pub fn log_entry(&self) -> (r: LogEntry)
        ensures
            r.level == level_of(self@.0),
            r.status == status_of(self@.0),
            opt_view(r.detail) == logged_detail(self@),
    {
        let status = self.status_code();
        let level = if 500 <= status && status < 600 {
            LogLevel::Error
        } else {
            LogLevel::Warn
        };
        let detail = match self.detail() {
            Some(d) => Some(d.clone()),
            None => None,
        };
        LogEntry { level, status, detail }
    }

    /// Classifies a database failure; see [`db_error_view`].
    pub fn from_db_error(e: DbError) -> (r: AppError)
        ensures
            r@ == db_error_view(e),
    {
        match e {
            DbError::RowNotFound => AppError::NotFound(Some(String::from_str("Resource not found"))),
            DbError::PoolTimedOut => AppError::RequestTimeout(
                Some(String::from_str("Database timeout")),
            ),
            DbError::Database { code, message } => {
                if str_eq(code.as_str(), UNIQUE_VIOLATION) {
                    AppError::Conflict(Some(String::from_str("Duplicate key")))
                } else if str_eq(code.as_str(), FK_VIOLATION) {
                    AppError::Conflict(Some(String::from_str("Foreign-key violation")))
                } else if str_eq(code.as_str(), NOT_NULL_VIOLATION) {
                    AppError::BadRequest(Some(String::from_str("Null value in column")))
                } else if str_eq(code.as_str(), CHECK_VIOLATION) {
                    AppError::UnprocessableContent(Some(String::from_str("Check violation")))
                } else {
                    let text = String::from_str("Database error (").concat(code.as_str()).concat(
                        "): ",
                    ).concat(message.as_str());
                    AppError::InternalServerError(Some(text))
                }
            },
            DbError::Other(text) => {
                if contains_str(text.as_str(), "timeout") {
                    AppError::RequestTimeout(Some(String::from_str("Database timeout")))
                } else {
                    AppError::InternalServerError(
                        Some(String::from_str("DB error: ").concat(text.as_str())),
                    )
                }
            },
        }
    }
}

/// SQLSTATE of a unique-constraint violation.
pub const UNIQUE_VIOLATION: &'static str = "23505";

/// SQLSTATE of a foreign-key violation.
pub const FK_VIOLATION: &'static str = "23503";

/// SQLSTATE of a not-null violation.
pub const NOT_NULL_VIOLATION: &'static str = "23502";

/// SQLSTATE of a check-constraint violation.
pub const CHECK_VIOLATION: &'static str = "23514";

/// A failure reported by the database layer, as far as the service reads it.
#[derive(Debug)]
pub enum DbError {
    /// A query that must return a row returned none.
    RowNotFound,
    /// No connection of the pool became free in time.
    PoolTimedOut,
    /// The database refused a statement, with its SQLSTATE code (empty when
    /// it gave none) and its message.
    Database { code: String, message: String },
    /// Any other failure, by its description.
    Other(String),
}

/// The error that a database failure becomes: the explicit SQLSTATE table
/// decides for a refused statement; an unlisted code, or a description
/// without "timeout", becomes an internal error that carries it.
pub open spec fn db_error_view(e: DbError) -> (ErrorKind, Option<Seq<char>>) {
    match e {
        DbError::RowNotFound => (ErrorKind::NotFound, Some("Resource not found"@)),
        DbError::PoolTimedOut => (ErrorKind::RequestTimeout, Some("Database timeout"@)),
        DbError::Database { code, message } => {
            if code@ == "23505"@ {
                (ErrorKind::Conflict, Some("Duplicate key"@))
            } else if code@ == "23503"@ {
                (ErrorKind::Conflict, Some("Foreign-key violation"@))
            } else if code@ == "23502"@ {
                (ErrorKind::BadRequest, Some("Null value in column"@))
            } else if code@ == "23514"@ {
                (ErrorKind::UnprocessableContent, Some("Check violation"@))
            } else {
                (
                    ErrorKind::InternalServerError,
                    Some("Database error ("@ + code@ + "): "@ + message@),
                )
            }
        },
        DbError::Other(text) => {
            if has_infix(text@, "timeout"@) {
                (ErrorKind::RequestTimeout, Some("Database timeout"@))
            } else {
                (ErrorKind::InternalServerError, Some("DB error: "@ + text@))
            }
        },
    }
}

/// A server error's detail never reaches the client, while its log record
/// holds that detail in full.
pub proof fn lemma_server_detail_redacted(e: (ErrorKind, Option<Seq<char>>))
    requires
        e.0 == ErrorKind::InternalServerError,
        e.1 is Some,
    ensures
        public_detail(e) is None,
        level_of(e.0) == LogLevel::Error,
        logged_detail(e) == e.1,
{
}

} // verus!
