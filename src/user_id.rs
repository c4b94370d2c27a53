//! Identifiers of users: strictly positive integers.
use crate::error::{AppError, AppResult, ErrorKind};
use vstd::prelude::*;

verus! {

/// A user's identifier, always greater than zero.
#[derive(Debug, Clone, Copy, PartialEq, Eq, Structural)]
pub struct UserId(i64);

impl View for UserId {
    type V = i64;

    closed spec fn view(&self) -> i64 {
        self.0
    }
}

/// Detail of the error for an identifier that is not positive.
pub open spec fn not_positive_message() -> Seq<char> {
    "ユーザーID(user_id)は正の整数でなければなりません。"@
}

impl UserId {
    #[verifier::type_invariant]
    spec fn inv(&self) -> bool {
        self.0 > 0
    }

    /// The identifier `user_id`; a value that is not positive betrays a fault
    /// inside the service, so it is an internal error.
    pub fn new(user_id: i64) -> (r: AppResult<UserId>)
        ensures
            match r {
                Ok(id) => user_id > 0 && id@ == user_id,
                Err(e) => user_id <= 0 && e@ == (
                    ErrorKind::InternalServerError,
                    Some(not_positive_message()),
                ),
            },
    {
        if user_id <= 0 {
            return Err(
                AppError::InternalServerError(
                    Some(String::from_str("ユーザーID(user_id)は正の整数でなければなりません。")),
                ),
            );
        }
        Ok(UserId(user_id))
    }

    /// The integer.
    pub fn as_i64(self) -> (r: i64)
        ensures
            r == self@,
            r > 0,
    {
        proof {
            use_type_invariant(&self);
        }
        self.0
    }
}

} // verus!
