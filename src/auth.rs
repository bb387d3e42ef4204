//! Logging in and renewing a token.
use vstd::prelude::*;
use crate::error::{ApiError, FieldError};
use crate::rules::{credential_check, credential_errors, into_outcome, length_rule, length_within};
use crate::user::UserRecord;

verus! {

/// The number of characters of a token handed in for renewal.
pub const TOKEN_LEN: u64 = 160;

/// The credentials of a login.
#[derive(Debug)]
pub struct AuthRequest {
    pub username: String,
    pub password: String,
}

/// The token handed out on a login or a renewal.
#[derive(Debug)]
pub struct AuthResponse {
    pub token: String,
}

/// A user as the login sees it.
#[derive(Debug)]
pub struct User {
    pub id: i32,
    pub username: String,
}

/// A token handed in to be renewed.
#[derive(Debug)]
pub struct RenewRequest {
    pub token: String,
}

/// Whether the password matches a bcrypt hash.
pub uninterp spec fn password_verifies(password: Seq<char>, hash: Seq<char>) -> bool;

/// Whether bcrypt can read the text as a hash: its prefix, cost, salt and
/// digest.
pub uninterp spec fn hash_readable(hash: Seq<char>) -> bool;

/// Relies on bcrypt::verify: it fails exactly on a hash that it cannot read,
/// and otherwise tells whether the password hashes, under the hash's own cost
/// and salt, to the same value.
#[verifier::external_body]
fn check_password(password: &str, hash: &str) -> (r: Result<bool, String>)
    ensures
        r is Ok <==> hash_readable(hash@),
        r matches Ok(b) ==> b == password_verifies(password@, hash@),
{
    bcrypt::verify(password, hash).map_err(|e| e.to_string())
}

impl AuthRequest {
    /// The rules that these credentials break.
    pub open spec fn errors(&self) -> Seq<FieldError> {
        credential_errors(self.username@, self.password@)
    }

    /// Checks the credentials against their rules: the username must be an
    /// e-mail address and the password have at least eight characters.
    pub fn validate(&self) -> (r: Result<(), Vec<FieldError>>)
        ensures
            r is Ok <==> self.errors().len() == 0,
            r matches Err(e) ==> e@ == self.errors(),
    {
        into_outcome(credential_check(self.username.as_str(), self.password.as_str()))
    }
}

impl RenewRequest {
    /// The rules that this request breaks.
    pub open spec fn errors(&self) -> Seq<FieldError> {
        if length_rule(self.token@.len(), None, None, Some(TOKEN_LEN)) {
            Seq::empty()
        } else {
            seq![FieldError::TokenLength]
        }
    }

    /// Checks that the token has exactly 160 characters.
    pub fn validate(&self) -> (r: Result<(), Vec<FieldError>>)
        ensures
            r is Ok <==> self.errors().len() == 0,
            r matches Err(e) ==> e@ == self.errors(),
    {
        let mut errors: Vec<FieldError> = Vec::new();
        if !length_within(self.token.as_str(), None, None, Some(TOKEN_LEN)) {
            errors.push(FieldError::TokenLength);
        }
        proof {
            assert(errors@ =~= self.errors());
        }
        into_outcome(errors)
    }
}

/// Decides a login once the user stored under the username has been looked
/// up (`found`) and, where there is one, the password checked against its hash
/// (`verdict`): the id of the user to issue a token for, or the failure.
pub fn login_outcome(found: Option<UserRecord>, verdict: Result<bool, String>) -> (r: Result<i32, ApiError>)
    ensures
        found is None ==> r matches Err(ApiError::UserNotFound),
        found matches Some(u) ==> match verdict {
            Err(m) => r == Err::<i32, ApiError>(ApiError::Internal(m)),
            Ok(false) => r matches Err(ApiError::Unauthorized),
            Ok(true) => r == Ok::<i32, ApiError>(u.id),
        },
{
    match found {
        None => Err(ApiError::UserNotFound),
        Some(u) => match verdict {
            Err(m) => Err(ApiError::Internal(m)),
            Ok(false) => Err(ApiError::Unauthorized),
            Ok(true) => Ok(u.id),
        },
    }
}

/// Checks a login against the user stored under its username: the id of the
/// user to issue a token for, or why the login fails.
pub fn login(request: &AuthRequest, found: Option<UserRecord>) -> (r: Result<i32, ApiError>)
    ensures
        request.errors().len() > 0 ==> (r matches Err(ApiError::Invalid(e)) && e@ == request.errors()),
        request.errors().len() == 0 && found is None ==> r matches Err(ApiError::UserNotFound),
        request.errors().len() == 0 && found is Some ==> match r {
            Ok(id) => id == found->0.id && password_verifies(request.password@, found->0.password@),
            Err(ApiError::Unauthorized) => !password_verifies(request.password@, found->0.password@),
            Err(ApiError::Internal(_)) => !hash_readable(found->0.password@),
            Err(_) => false,
        },
        request.errors().len() == 0 && found is Some && hash_readable(found->0.password@) ==> (r is Ok
            <==> password_verifies(request.password@, found->0.password@)),
{
    if let Err(e) = request.validate() {
        return Err(ApiError::Invalid(e));
    }
    match found {
        None => Err(ApiError::UserNotFound),
        Some(u) => {
            let verdict = check_password(request.password.as_str(), u.password.as_str());
            login_outcome(Some(u), verdict)
        },
    }
}

} // verus!
