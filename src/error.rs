use vstd::prelude::*;

verus! {

/// The failures that a request can meet.
#[derive(Debug, Clone, Copy, PartialEq, Eq, Structural)]
pub enum ApiError {
    /// Bad credentials, or a missing, unknown or expired session.
    Unauthorized,
    /// A username that is already taken.
    Conflict,
    /// A failure of the store, of the random source or of the hash function.
    Internal,
}

impl ApiError {
    /// The HTTP status that answers this error.
    pub fn status_code(&self) -> (r: u16)
        ensures
            r == match *self {
                ApiError::Unauthorized => 401u16,
                ApiError::Conflict => 409u16,
                ApiError::Internal => 500u16,
            },
    {
        match self {
            ApiError::Unauthorized => 401,
            ApiError::Conflict => 409,
            ApiError::Internal => 500,
        }
    }

    /// The body of the response: a generic message, without detail.
    pub fn message(&self) -> (r: &'static str)
        ensures
            r@ == match *self {
                ApiError::Unauthorized => "Unauthorized"@,
                ApiError::Conflict => "Conflict"@,
                ApiError::Internal => "Internal Server Error"@,
            },
    {
        match self {
            ApiError::Unauthorized => "Unauthorized",
            ApiError::Conflict => "Conflict",
            ApiError::Internal => "Internal Server Error",
        }
    }
}

} // verus!
