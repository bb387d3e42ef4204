//! Failures that a request can end in.
use vstd::prelude::*;

verus! {

/// A field of a request that breaks its rule.
#[derive(Clone, Copy, Debug, PartialEq, Eq, Structural)]
pub enum FieldError {
    /// The username is not an e-mail address.
    InvalidEmail,
    /// The password has fewer than eight characters.
    PasswordTooShort,
    /// The title has fewer than three or more than thirty-two characters.
    TitleLength,
    /// The priority has more than three characters.
    PriorityTooLong,
    /// The description has fewer than three or more than 120 characters.
    DescriptionLength,
    /// The token does not have exactly 160 characters.
    TokenLength,
}

/// Why a request failed.
#[derive(Debug)]
pub enum ApiError {
    /// The request breaks the rules of these fields, in the order of the fields.
    Invalid(Vec<FieldError>),
    /// The password does not match the stored hash.
    Unauthorized,
    /// No user has the given username.
    UserNotFound,
    /// No task has the given id.
    TaskNotFound,
    /// A user with the given username exists already.
    UserExists,
    /// A collaborator failed, with its message.
    Internal(String),
}

/// The HTTP status that answers the failure.
pub open spec fn status_of(e: ApiError) -> u16 {
    match e {
        ApiError::Invalid(_) => 400,
        ApiError::Unauthorized => 401,
        ApiError::UserNotFound => 404,
        ApiError::TaskNotFound => 404,
        ApiError::UserExists => 400,
        ApiError::Internal(_) => 500,
    }
}

impl ApiError {
    /// The HTTP status that answers the failure.
    pub fn status_code(&self) -> (r: u16)
        ensures
            r == status_of(*self),
    {
        match self {
            ApiError::Invalid(_) => 400,
            ApiError::Unauthorized => 401,
            ApiError::UserNotFound => 404,
            ApiError::TaskNotFound => 404,
            ApiError::UserExists => 400,
            ApiError::Internal(_) => 500,
        }
    }
}

} // verus!
