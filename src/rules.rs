//! Field rules shared by the request types.
use vstd::prelude::*;
use crate::error::FieldError;

verus! {

/// Whether the text is an e-mail address in the sense of the HTML form rules.
pub uninterp spec fn email_valid(s: Seq<char>) -> bool;

/// A length rule on a count of characters: an exact count, when given,
/// overrides the bounds.
pub open spec fn length_rule(len: nat, min: Option<u64>, max: Option<u64>, equal: Option<u64>) -> bool {
    match equal {
        Some(eq) => len == eq,
        None => (match min {
            Some(m) => len >= m,
            None => true,
        }) && (match max {
            Some(m) => len <= m,
            None => true,
        }),
    }
}

/// Relies on validator::validate_email: an empty text, or one without `@`,
/// is refused; otherwise the answer depends on the text alone.
#[verifier::external_body]
pub(crate) fn is_email(s: &str) -> (r: bool)
    ensures
        r == email_valid(s@),
        (s@.len() == 0 || !s@.contains('@')) ==> !r,
{
    validator::validate_email(s)
}

/// Relies on validator::validate_length, which counts the characters of the
/// text and checks that count against the bounds.
#[verifier::external_body]
pub(crate) fn length_within(s: &str, min: Option<u64>, max: Option<u64>, equal: Option<u64>) -> (r: bool)
    ensures
        r == length_rule(s@.len(), min, max, equal),
{
    validator::validate_length(s, min, max, equal)
}

/// The least number of characters of a password.
pub const PASSWORD_MIN: u64 = 8;

/// The rules that a username and a password break, username first.
pub open spec fn credential_errors(username: Seq<char>, password: Seq<char>) -> Seq<FieldError> {
    (if email_valid(username) { Seq::empty() } else { seq![FieldError::InvalidEmail] })
        + (if length_rule(password.len(), Some(PASSWORD_MIN), None, None) {
        Seq::empty()
    } else {
        seq![FieldError::PasswordTooShort]
    })
}

/// Checks a username and a password against their rules.
pub fn credential_check(username: &str, password: &str) -> (r: Vec<FieldError>)
    ensures
        r@ == credential_errors(username@, password@),
{
    let mut errors: Vec<FieldError> = Vec::new();
    if !is_email(username) {
        errors.push(FieldError::InvalidEmail);
    }
    if !length_within(password, Some(PASSWORD_MIN), None, None) {
        errors.push(FieldError::PasswordTooShort);
    }
    proof {
        assert(errors@ =~= credential_errors(username@, password@));
    }
    errors
}

/// Turns a list of broken rules into the answer of a validation.
pub fn into_outcome(errors: Vec<FieldError>) -> (r: Result<(), Vec<FieldError>>)
    ensures
        errors@.len() == 0 ==> r is Ok,
        errors@.len() > 0 ==> (r matches Err(e) && e@ == errors@),
{
    if errors.len() == 0 {
        Ok(())
    } else {
        Err(errors)
    }
}

} // verus!
