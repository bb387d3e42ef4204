//! A body of credentials that is checked as it is read.
use vstd::prelude::*;
use crate::error::{ApiError, FieldError};
use crate::rules::{credential_check, credential_errors, into_outcome};

verus! {

/// A username and a password, as a request body carries them.
#[derive(Debug)]
pub struct UserRequest {
    pub username: String,
    pub password: String,
}

impl UserRequest {
    /// The rules that these credentials break.
    pub open spec fn errors(&self) -> Seq<FieldError> {
        credential_errors(self.username@, self.password@)
    }

    /// Checks the credentials against their rules: the username must be an
    /// e-mail address and the password have at least eight characters.
    pub fn validate(&self) -> (r: Result<(), Vec<FieldError>>)
        ensures
            r is Ok <==> self.errors().len() == 0,
            r matches Err(e) ==> e@ == self.errors(),
    {
        into_outcome(credential_check(self.username.as_str(), self.password.as_str()))
    }

    /// Accepts a body that was read: the body itself where its credentials
    /// meet their rules, the broken rules otherwise.
    pub fn from_body(body: UserRequest) -> (r: Result<UserRequest, ApiError>)
        ensures
            body.errors().len() == 0 ==> r == Ok::<UserRequest, ApiError>(body),
            body.errors().len() > 0 ==> (r matches Err(ApiError::Invalid(e)) && e@ == body.errors()),
    {
        match body.validate() {
            Err(e) => Err(ApiError::Invalid(e)),
            Ok(()) => Ok(body),
        }
    }
}

} // verus!
