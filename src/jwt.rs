use vstd::prelude::*;
use vstd::string::StringExecFns;

verus! {

/// The payload of a session token.
#[derive(Debug)]
pub struct Claims {
    /// The user id, in decimal.
    pub sub: String,
    pub discord_token: String,
    pub discord_refresh: String,
    /// Absolute expiry, in seconds since the Unix epoch.
    pub exp: i64,
}

pub struct ClaimsModel {
    pub sub: Seq<char>,
    pub discord_token: Seq<char>,
    pub discord_refresh: Seq<char>,
    pub exp: i64,
}

impl View for Claims {
    type V = ClaimsModel;

    open spec fn view(&self) -> ClaimsModel {
        ClaimsModel {
            sub: self.sub@,
            discord_token: self.discord_token@,
            discord_refresh: self.discord_refresh@,
            exp: self.exp,
        }
    }
}

/// The claims issued at `now` for `expires_in` seconds; none when the expiry does not fit.
pub open spec fn issued_claims(
    sub: Seq<char>,
    discord_token: Seq<char>,
    discord_refresh: Seq<char>,
    expires_in: u64,
    now: i64,
) -> Option<ClaimsModel> {
    if now as int + expires_in as int <= i64::MAX {
        Some(
            ClaimsModel {
                sub,
                discord_token,
                discord_refresh,
                exp: (now as int + expires_in as int) as i64,
            },
        )
    } else {
        None
    }
}

pub open spec fn claims_opt_view(o: Option<Claims>) -> Option<ClaimsModel> {
    match o {
        Some(c) => Some(c@),
        None => None,
    }
}

/// Relies on chrono's `Utc::now` and `DateTime::timestamp`: the current time in whole
/// seconds since the Unix epoch. Nothing is assumed of its value.
#[verifier::external_body]
pub(crate) fn unix_now() -> (r: i64) {
    chrono::Utc::now().timestamp()
}

/// Builds the claims of a session issued at `now` that lasts `expires_in` seconds.
pub fn claims_at(
    user_id: &str,
    discord_token: &str,
    discord_refresh: &str,
    expires_in: u64,
    now: i64,
) -> (r: Option<Claims>)
    ensures
        claims_opt_view(r) == issued_claims(
            user_id@,
            discord_token@,
            discord_refresh@,
            expires_in,
            now,
        ),
{
    let end = now as i128 + expires_in as i128;
    if end > i64::MAX as i128 {
        return None;
    }
    let exp = end as i64;
    Some(
        Claims {
            sub: String::from_str(user_id),
            discord_token: String::from_str(discord_token),
            discord_refresh: String::from_str(discord_refresh),
            exp,
        },
    )
}

/// Builds the claims of a session issued now that lasts `expires_in` seconds.
pub fn create_claims(
    user_id: &str,
    discord_token: &str,
    discord_refresh: &str,
    expires_in: u64,
) -> (r: Option<Claims>)
    ensures
        exists|now: i64|
            claims_opt_view(r) == issued_claims(
                user_id@,
                discord_token@,
                discord_refresh@,
                expires_in,
                now,
            ),
{
    let now = unix_now();
    claims_at(user_id, discord_token, discord_refresh, expires_in, now)
}

} // verus!
