use vstd::prelude::*;

verus! {

/// The failures that cross the service boundary as structured responses.
#[derive(Debug, Clone, Copy, PartialEq, Eq, Structural)]
pub enum ApiError {
    /// No credential was presented.
    AuthenticationRequired,
    /// A credential was presented but is malformed, badly signed or expired.
    AuthenticationExpired,
    /// The caller is known but not allowed to do what it asked.
    Unauthorized,
    /// A credential could not be issued.
    TokenGenerationError,
}

/// The HTTP status that answers each error.
pub open spec fn status_of(e: ApiError) -> u16 {
    match e {
        ApiError::AuthenticationRequired => 401,
        ApiError::AuthenticationExpired => 401,
        ApiError::Unauthorized => 403,
        ApiError::TokenGenerationError => 500,
    }
}

impl ApiError {
    /// The HTTP status code of the response that reports this error.
    pub fn status_code(&self) -> (r: u16)
        ensures
            r == status_of(*self),
    {
        match self {
            ApiError::AuthenticationRequired => 401,
            ApiError::AuthenticationExpired => 401,
            ApiError::Unauthorized => 403,
            ApiError::TokenGenerationError => 500,
        }
    }
}

} // verus!
