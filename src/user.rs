//! Registering, listing and removing users.
use vstd::prelude::*;
use crate::error::{ApiError, FieldError};
use crate::rules::{credential_check, credential_errors, email_valid, into_outcome, is_email};

verus! {

/// A user as it is stored: its id, its username and the bcrypt hash of its
/// password.
#[derive(Debug)]
pub struct UserRecord {
    pub id: i32,
    pub username: String,
    pub password: String,
}

/// The fields of a user to be stored: its username and the hash of its
/// password.
#[derive(Debug)]
pub struct NewUser {
    pub username: String,
    pub password: String,
}

/// The credentials of a user to be registered.
#[derive(Debug)]
pub struct CreateUserRequest {
    pub username: String,
    pub password: String,
}

/// A registered user, as the registration answers it.
#[derive(Debug)]
pub struct CreateUserResponse {
    pub id: i32,
    pub username: String,
}

/// A user, as the listing of all users shows it.
#[derive(Debug)]
pub struct GetAllUsersResponse {
    pub id: i32,
    pub username: String,
    pub password: String,
}

/// The username of a user to be removed.
#[derive(Debug)]
pub struct DeleteUserByUsernameRequest {
    pub username: String,
}

/// The work factor of the password hash (bcrypt's default).
pub const HASH_COST: u32 = 12;

/// The character of a decimal digit.
pub open spec fn digit_char(d: int) -> char {
    if d == 0 { '0' } else if d == 1 { '1' } else if d == 2 { '2' } else if d == 3 { '3' }
    else if d == 4 { '4' } else if d == 5 { '5' } else if d == 6 { '6' } else if d == 7 { '7' }
    else if d == 8 { '8' } else { '9' }
}

/// The form of a bcrypt hash of version 2b at the given cost: sixty
/// characters that start with `$2b$`, the cost in two digits and `$`.
pub open spec fn bcrypt_form(hash: Seq<char>, cost: u32) -> bool {
    &&& hash.len() == 60
    &&& hash.subrange(0, 4) == seq!['$', '2', 'b', '$']
    &&& hash[4] == digit_char(cost as int / 10)
    &&& hash[5] == digit_char(cost as int % 10)
    &&& hash[6] == '$'
}

/// Relies on bcrypt::hash: it draws a fresh salt, refuses a cost outside 4 to
/// 31, and writes the version 2b, the cost in two digits, the salt in 22
/// characters and the digest in 31. Of every outcome this holds:
/// `bcrypt::verify` reads the hash back and accepts the password against it.
#[verifier::external_body]
fn hash_password(password: &str, cost: u32) -> (r: Result<String, String>)
    ensures
        r matches Ok(h) ==> crate::auth::password_verifies(password@, h@) && crate::auth::hash_readable(h@)
            && 4 <= cost <= 31 && bcrypt_form(h@, cost),
{
    bcrypt::hash(password, cost).map_err(|e| e.to_string())
}

impl CreateUserRequest {
    /// The rules that these credentials break.
    pub open spec fn errors(&self) -> Seq<FieldError> {
        credential_errors(self.username@, self.password@)
    }

    /// Checks the credentials against their rules: the username must be an
    /// e-mail address and the password have at least eight characters.
    pub fn validate(&self) -> (r: Result<(), Vec<FieldError>>)
        ensures
            r is Ok <==> self.errors().len() == 0,
            r matches Err(e) ==> e@ == self.errors(),
    {
        into_outcome(credential_check(self.username.as_str(), self.password.as_str()))
    }
}

impl DeleteUserByUsernameRequest {
    /// The rules that this request breaks.
    pub open spec fn errors(&self) -> Seq<FieldError> {
        if email_valid(self.username@) {
            Seq::empty()
        } else {
            seq![FieldError::InvalidEmail]
        }
    }

    /// Checks that the username is an e-mail address.
    pub fn validate(&self) -> (r: Result<(), Vec<FieldError>>)
        ensures
            r is Ok <==> self.errors().len() == 0,
            r matches Err(e) ==> e@ == self.errors(),
    {
        let mut errors: Vec<FieldError> = Vec::new();
        if !is_email(self.username.as_str()) {
            errors.push(FieldError::InvalidEmail);
        }
        proof {
            assert(errors@ =~= self.errors());
        }
        into_outcome(errors)
    }
}

/// Decides a registration once the username has been looked up (`existing`)
/// and the password hashed (`hashed`): the user to store, or the failure.
pub fn registration_outcome(
    request: CreateUserRequest,
    existing: Option<UserRecord>,
    hashed: Result<String, String>,
) -> (r: Result<NewUser, ApiError>)
    ensures
        request.errors().len() > 0 ==> (r matches Err(ApiError::Invalid(e)) && e@ == request.errors()),
        request.errors().len() == 0 && existing is Some ==> r matches Err(ApiError::UserExists),
        request.errors().len() == 0 && existing is None ==> match hashed {
            Err(m) => r == Err::<NewUser, ApiError>(ApiError::Internal(m)),
            Ok(h) => r == Ok::<NewUser, ApiError>(NewUser { username: request.username, password: h }),
        },
{
    if let Err(e) = request.validate() {
        return Err(ApiError::Invalid(e));
    }
    if existing.is_some() {
        return Err(ApiError::UserExists);
    }
    match hashed {
        Err(m) => Err(ApiError::Internal(m)),
        Ok(h) => Ok(NewUser { username: request.username, password: h }),
    }
}

/// Prepares the registration of a user, given the user already stored under
/// its username, if any: the user to store, with the hash of its password, or
/// the failure.
pub fn register(request: CreateUserRequest, existing: Option<UserRecord>) -> (r: Result<NewUser, ApiError>)
    ensures
        request.errors().len() > 0 ==> (r matches Err(ApiError::Invalid(e)) && e@ == request.errors()),
        request.errors().len() == 0 && existing is Some ==> r matches Err(ApiError::UserExists),
        request.errors().len() == 0 && existing is None ==> match r {
            Ok(u) => u.username == request.username && crate::auth::password_verifies(request.password@, u.password@)
                && crate::auth::hash_readable(u.password@) && bcrypt_form(u.password@, HASH_COST),
            Err(ApiError::Internal(_)) => true,
            Err(_) => false,
        },
{
    if let Err(e) = request.validate() {
        return Err(ApiError::Invalid(e));
    }
    if existing.is_some() {
        return Err(ApiError::UserExists);
    }
    let hashed = hash_password(request.password.as_str(), HASH_COST);
    registration_outcome(request, None, hashed)
}

/// The answer to a registration, from the user as it was stored.
pub fn created_user(saved: UserRecord) -> (r: CreateUserResponse)
    ensures
        r.id == saved.id,
        r.username == saved.username,
{
    CreateUserResponse { id: saved.id, username: saved.username }
}

/// A stored user as the listing shows it.
pub open spec fn listed(u: UserRecord) -> GetAllUsersResponse {
    GetAllUsersResponse { id: u.id, username: u.username, password: u.password }
}

/// The listing of all users, one entry for each stored user, in their order.
pub fn users_listing(users: Vec<UserRecord>) -> (r: Vec<GetAllUsersResponse>)
    ensures
        r@ == users@.map_values(|u: UserRecord| listed(u)),
{
    let mut users = users;
    let ghost all = users@;
    let mut reversed: Vec<GetAllUsersResponse> = Vec::new();
    while users.len() > 0
        invariant
            users@ == all.subrange(0, users@.len() as int),
            reversed@.len() + users@.len() == all.len(),
            forall|i: int| 0 <= i < reversed@.len() ==> reversed@[i] == listed(#[trigger] all[all.len() - 1 - i]),
        decreases users@.len(),
    {
        let u = users.pop().unwrap();
        reversed.push(GetAllUsersResponse { id: u.id, username: u.username, password: u.password });
    }
    let mut r: Vec<GetAllUsersResponse> = Vec::new();
    while reversed.len() > 0
        invariant
            r@.len() + reversed@.len() == all.len(),
            forall|i: int| 0 <= i < reversed@.len() ==> reversed@[i] == listed(#[trigger] all[all.len() - 1 - i]),
            forall|i: int| 0 <= i < r@.len() ==> r@[i] == listed(#[trigger] all[i]),
        decreases reversed@.len(),
    {
        let ghost k = reversed@.len() - 1;
        proof {
            assert(reversed@[k] == listed(all[all.len() - 1 - k]));
        }
        let e = reversed.pop().unwrap();
        r.push(e);
    }
    proof {
        assert(r@ =~= all.map_values(|u: UserRecord| listed(u)));
    }
    r
}

/// Decides the removal of a user once the username has been looked up: the
/// user to remove, or the failure.
pub fn user_to_delete(request: &DeleteUserByUsernameRequest, found: Option<UserRecord>) -> (r: Result<UserRecord, ApiError>)
    ensures
        request.errors().len() > 0 ==> (r matches Err(ApiError::Invalid(e)) && e@ == request.errors()),
        request.errors().len() == 0 ==> match found {
            None => r matches Err(ApiError::UserNotFound),
            Some(u) => r == Ok::<UserRecord, ApiError>(u),
        },
{
    if let Err(e) = request.validate() {
        return Err(ApiError::Invalid(e));
    }
    match found {
        None => Err(ApiError::UserNotFound),
        Some(u) => Ok(u),
    }
}

} // verus!
