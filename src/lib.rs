//! Validated value objects for a small web service, and the error type that
//! every failure of the service flows through on its way to an HTTP response.
pub mod birth_date;
pub mod config;
pub mod dto;
pub mod error;
pub mod normalized_string;
pub mod text;
pub mod user_id;
