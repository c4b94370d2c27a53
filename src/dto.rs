//! Request and response shapes exchanged with clients.
use crate::birth_date::CalendarDate;
use vstd::prelude::*;

verus! {

/// Envelope of a successful response.
#[derive(Debug)]
pub struct ApiResponse<T> {
    /// The payload.
    pub data: T,
    /// A message describing the result.
    pub message: String,
    /// When the response was made, in Unix seconds.
    pub timestamp: i64,
}

impl<T> ApiResponse<T> {
    /// Wraps `data`, with `message` or else "success" as the message.
    pub fn success(data: T, message: Option<&str>, timestamp: i64) -> (r: ApiResponse<T>)
        ensures
            r.data == data,
            r.message@ == (match message {
                Some(m) => m@,
                None => "success"@,
            }),
            r.timestamp == timestamp,
    {
        let message = match message {
            Some(m) => String::from_str(m),
            None => String::from_str("success"),
        };
        ApiResponse { data, message, timestamp }
    }
}

/// Body of an error response.
#[derive(Debug)]
pub struct ApiError {
    /// HTTP status code of the error.
    pub status: u16,
    /// A short summary: the status's reason phrase.
    pub message: String,
    /// A detailed explanation, shown to clients for client errors only.
    pub detail: Option<String>,
    /// Where the error occurred; never filled in by this library.
    pub instance: Option<String>,
    /// When the response was made, in Unix seconds.
    pub timestamp: i64,
}

/// Credentials sent to sign in.
#[derive(Debug)]
pub struct AuthRequest {
    pub user_name: String,
    pub password: String,
}

/// Answer to a successful sign-in.
#[derive(Debug)]
pub struct AuthResponse {
    pub public_id: String,
    pub session_id: String,
    pub randomart: String,
}

/// Data sent to open an account.
#[derive(Debug)]
pub struct RegisterRequest {
    pub user_name: String,
    pub password: String,
    pub first_name: Option<String>,
    pub last_name: Option<String>,
    pub email: Option<String>,
    pub phone: Option<String>,
    pub birth_date: Option<CalendarDate>,
}

/// Answer to a successful registration.
#[derive(Debug)]
pub struct RegisterResponse {
    pub public_id: String,
    pub randomart: String,
}

} // verus!
