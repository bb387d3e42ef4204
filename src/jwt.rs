//! The claims that a session token carries, and when it runs out.
use vstd::prelude::*;

verus! {

/// How long a token lasts, in seconds: a day.
pub const SESSION_SECS: i64 = 86400;

/// What a session token says: whose it is, whether that user is an
/// administrator, and when it was issued and runs out, in seconds since the
/// Unix epoch.
#[derive(Debug)]
pub struct Claims {
    pub id: i32,
    pub is_admin: bool,
    pub exp: usize,
    pub iat: usize,
}

/// Relies on std::time::SystemTime::now, measured from the Unix epoch: the
/// current time in whole seconds, none where the clock reads a time before
/// the epoch. Nothing is known of its value.
#[verifier::external_body]
fn now_timestamp() -> (r: Option<i64>) {
    std::time::SystemTime::now().duration_since(std::time::UNIX_EPOCH).ok().map(|d| d.as_secs() as i64)
}

/// Whether a token issued at `now` can say so, and when it runs out, in a `usize`.
pub open spec fn issuable_at(now: i64) -> bool {
    0 <= now && now + SESSION_SECS <= usize::MAX
}

/// The claims of a token for the user `id`, issued at `now` and running out a
/// day later; none where those times do not fit in a `usize`.
pub fn claims_at(id: i32, now: i64) -> (r: Option<Claims>)
    ensures
        r is Some <==> issuable_at(now),
        r matches Some(c) ==> c.id == id && !c.is_admin && c.iat == now && c.exp == now + SESSION_SECS,
{
    if now < 0 {
        return None;
    }
    let start: u64 = now as u64;
    let limit: u64 = usize::MAX as u64;
    if start > limit - SESSION_SECS as u64 {
        return None;
    }
    Some(Claims { id, is_admin: false, exp: (start + SESSION_SECS as u64) as usize, iat: start as usize })
}

/// The claims of a token for the user `id`, issued now and running out a day
/// later; none where the clock reads a time before the Unix epoch or one
/// that a `usize` cannot hold.
pub fn new_claims(id: i32) -> (r: Option<Claims>)
    ensures
        r matches Some(c) ==> c.id == id && !c.is_admin && c.exp == c.iat + SESSION_SECS,
{
    match now_timestamp() {
        Some(now) => claims_at(id, now),
        None => None,
    }
}

/// The claims of the token that renews a token with the given claims at
/// `now`: the same user, issued at `now`, running out a day later.
pub fn renewed_claims(old: &Claims, now: i64) -> (r: Option<Claims>)
    ensures
        r is Some <==> issuable_at(now),
        r matches Some(c) ==> c.id == old.id && !c.is_admin && c.iat == now && c.exp == now + SESSION_SECS,
{
    claims_at(old.id, now)
}

/// The claims of the token that renews the decoded token, issued now; the
/// decoding failure, or a message where the clock cannot be read into a
/// `usize`, otherwise.
pub fn refresh_claims(decoded: Result<Claims, String>) -> (r: Result<Claims, String>)
    ensures
        decoded matches Err(m) ==> r == Err::<Claims, String>(m),
        decoded matches Ok(old) ==> (r matches Ok(c) ==> c.id == old.id && !c.is_admin && c.exp == c.iat + SESSION_SECS),
{
    match decoded {
        Err(m) => Err(m),
        Ok(old) => {
            let renewed = match now_timestamp() {
                Some(now) => renewed_claims(&old, now),
                None => None,
            };
            match renewed {
                Some(c) => Ok(c),
                None => Err(String::from_str("the clock reads a time out of range")),
            }
        },
    }
}

} // verus!
