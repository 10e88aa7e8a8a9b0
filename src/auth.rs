use vstd::prelude::*;
use vstd::string::StrSliceExecFns;

use crate::error::ApiError;
use crate::jwt::{issued_claims, unix_now, Claims, ClaimsModel};
use crate::model::{decimal_value, is_id_text, Id};

verus! {

/// The identity carried by a valid session token.
#[derive(Debug)]
pub struct AuthenticatedUser {
    pub user_id: Id,
    pub discord_token: String,
    pub discord_refresh: String,
}

pub struct UserModel {
    pub user_id: Id,
    pub discord_token: Seq<char>,
    pub discord_refresh: Seq<char>,
}

impl View for AuthenticatedUser {
    type V = UserModel;

    open spec fn view(&self) -> UserModel {
        UserModel {
            user_id: self.user_id,
            discord_token: self.discord_token@,
            discord_refresh: self.discord_refresh@,
        }
    }
}

/// Why a credential was refused. Callers only ever see `ApiError::Auth`.
#[derive(Clone, Copy, Debug, PartialEq, Eq, Structural)]
pub enum AuthError {
    MissingCredential,
    MalformedCredential,
    InvalidSignature,
    Expired,
}

impl AuthError {
    /// The one error reported for every kind of refusal.
    pub fn to_api_error(&self) -> (r: ApiError)
        ensures
            r is Auth,
    {
        ApiError::Auth
    }
}

pub open spec fn bearer_prefix() -> Seq<char> {
    seq!['B', 'e', 'a', 'r', 'e', 'r', ' ']
}

pub open spec fn has_bearer_prefix(s: Seq<char>) -> bool {
    s.len() >= 7 && s.subrange(0, 7) == bearer_prefix()
}

/// `s` with every leading repetition of the bearer prefix removed.
pub open spec fn strip_bearer(s: Seq<char>) -> Seq<char>
    decreases s.len(),
{
    if has_bearer_prefix(s) {
        strip_bearer(s.subrange(7, s.len() as int))
    } else {
        s
    }
}

/// The token carried by an authorization header value.
pub open spec fn bearer_outcome(header: Option<Seq<char>>) -> Result<Seq<char>, AuthError> {
    match header {
        None => Err(AuthError::MissingCredential),
        Some(h) => if has_bearer_prefix(h) {
            Ok(strip_bearer(h))
        } else {
            Err(AuthError::MalformedCredential)
        },
    }
}

fn bearer_char(k: usize) -> (r: char)
    requires
        k < 7,
    ensures
        r == bearer_prefix()[k as int],
{
    match k {
        0 => 'B',
        1 => 'e',
        2 => 'a',
        3 => 'r',
        4 => 'e',
        5 => 'r',
        _ => ' ',
    }
}

fn starts_with_bearer(s: &str) -> (r: bool)
    ensures
        r == has_bearer_prefix(s@),
{
    if s.unicode_len() < 7 {
        return false;
    }
    let mut k: usize = 0;
    while k < 7
        invariant
            k <= 7,
            s@.len() >= 7,
            forall|j: int| 0 <= j < k ==> s@[j] == bearer_prefix()[j],
        decreases 7 - k,
    {
        if s.get_char(k) != bearer_char(k) {
            assert(s@.subrange(0, 7)[k as int] != bearer_prefix()[k as int]);
            return false;
        }
        k = k + 1;
    }
    assert(s@.subrange(0, 7) =~= bearer_prefix());
    true
}

/// Extracts the token from an authorization header value.
pub fn bearer_token(header: Option<&str>) -> (r: Result<&str, AuthError>)
    ensures
        match header {
            None => r == Err::<&str, AuthError>(AuthError::MissingCredential),
            Some(h) => match bearer_outcome(Some(h@)) {
                Ok(t) => r.is_ok() && r.unwrap()@ == t,
                Err(e) => r == Err::<&str, AuthError>(e),
            },
        },
{
    let h = match header {
        None => {
            return Err(AuthError::MissingCredential);
        },
        Some(h) => h,
    };
    if !starts_with_bearer(h) {
        return Err(AuthError::MalformedCredential);
    }
    let mut t = h;
    while starts_with_bearer(t)
        invariant
            strip_bearer(t@) == strip_bearer(h@),
        decreases t@.len(),
    {
        t = t.substring_char(7, t.unicode_len());
    }
    Ok(t)
}

/// What validating claims at `now` yields.
pub open spec fn validation_outcome(c: ClaimsModel, now: i64) -> Result<UserModel, AuthError> {
    if c.exp <= now {
        Err(AuthError::Expired)
    } else if !is_id_text(c.sub) {
        Err(AuthError::MalformedCredential)
    } else {
        Ok(
            UserModel {
                user_id: Id(decimal_value(c.sub) as u64),
                discord_token: c.discord_token,
                discord_refresh: c.discord_refresh,
            },
        )
    }
}

pub open spec fn user_result_view(r: Result<AuthenticatedUser, AuthError>) -> Result<
    UserModel,
    AuthError,
> {
    match r {
        Ok(u) => Ok(u@),
        Err(e) => Err(e),
    }
}

/// Accepts claims whose signature has been checked, at time `now`: they must not have
/// expired and their subject must be a user id.
pub fn validate_claims(claims: Claims, now: i64) -> (r: Result<AuthenticatedUser, AuthError>)
    ensures
        user_result_view(r) == validation_outcome(claims@, now),
{
    if claims.exp <= now {
        return Err(AuthError::Expired);
    }
    match Id::from_str(claims.sub.as_str()) {
        None => Err(AuthError::MalformedCredential),
        Some(user_id) => Ok(
            AuthenticatedUser {
                user_id,
                discord_token: claims.discord_token,
                discord_refresh: claims.discord_refresh,
            },
        ),
    }
}

/// Accepts claims whose signature has been checked, at the current time.
pub fn authenticate(claims: Claims) -> (r: Result<AuthenticatedUser, AuthError>)
    ensures
        exists|now: i64| user_result_view(r) == validation_outcome(claims@, now),
{
    let now = unix_now();
    validate_claims(claims, now)
}

/// Claims issued at `issued_at` for `ttl` seconds are accepted, with the identity they were
/// issued for, at every time before the expiry, and refused as expired from then on.
pub proof fn lemma_issue_then_validate(
    user_id: Seq<char>,
    discord_token: Seq<char>,
    discord_refresh: Seq<char>,
    ttl: u64,
    issued_at: i64,
    now: i64,
)
    requires
        is_id_text(user_id),
        issued_at as int + ttl as int <= i64::MAX,
    ensures
        issued_claims(user_id, discord_token, discord_refresh, ttl, issued_at) is Some,
        validation_outcome(
            issued_claims(user_id, discord_token, discord_refresh, ttl, issued_at).unwrap(),
            now,
        ) == if (now as int) < issued_at as int + ttl as int {
            Ok::<UserModel, AuthError>(
                UserModel {
                    user_id: Id(decimal_value(user_id) as u64),
                    discord_token,
                    discord_refresh,
                },
            )
        } else {
            Err(AuthError::Expired)
        },
{
}

} // verus!
