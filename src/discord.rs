use vstd::prelude::*;

use crate::error::ApiError;
use crate::jwt::{claims_at, issued_claims, unix_now, Claims};

verus! {

/// The answer of the platform's OAuth token endpoint.
#[derive(Debug)]
pub struct DiscordOAuthResponse {
    pub access_token: String,
    pub token_type: String,
    pub expires_in: u64,
    pub refresh_token: String,
    pub scope: String,
}

/// The session claims for an OAuth answer at `now`: the user id the platform reported
/// is required, and the delegated credentials and their lifetime are carried over.
pub open spec fn session_outcome(
    resp: DiscordOAuthResponse,
    user_id: Option<Seq<char>>,
    now: i64,
) -> Result<crate::jwt::ClaimsModel, ApiError> {
    match user_id {
        None => Err(ApiError::Internal),
        Some(u) => match issued_claims(
            u,
            resp.access_token@,
            resp.refresh_token@,
            resp.expires_in,
            now,
        ) {
            Some(c) => Ok(c),
            None => Err(ApiError::Internal),
        },
    }
}

pub open spec fn claims_result_view(r: Result<Claims, ApiError>) -> Result<
    crate::jwt::ClaimsModel,
    ApiError,
> {
    match r {
        Ok(c) => Ok(c@),
        Err(e) => Err(e),
    }
}

pub open spec fn str_opt_view(o: Option<&str>) -> Option<Seq<char>> {
    match o {
        Some(u) => Some(u@),
        None => None,
    }
}

/// Builds the claims of a new session from an OAuth answer and the user id that the
/// platform reported for its access token, at time `now`.
pub fn session_claims_at(resp: &DiscordOAuthResponse, user_id: Option<&str>, now: i64) -> (r:
    Result<Claims, ApiError>)
    ensures
        claims_result_view(r) == session_outcome(
            *resp,
            str_opt_view(user_id),
            now,
        ),
{
    let id = match user_id {
        Some(u) => u,
        None => {
            return Err(ApiError::Internal);
        },
    };
    let access = resp.access_token.as_str();
    let refresh = resp.refresh_token.as_str();
    match claims_at(id, access, refresh, resp.expires_in, now) {
        Some(c) => Ok(c),
        None => Err(ApiError::Internal),
    }
}

/// Builds the claims of a new session from an OAuth answer, issued now.
pub fn session_claims(resp: &DiscordOAuthResponse, user_id: Option<&str>) -> (r: Result<
    Claims,
    ApiError,
>)
    ensures
        exists|now: i64|
            claims_result_view(r) == #[trigger] session_outcome(
                *resp,
                str_opt_view(user_id),
                now,
            ),
{
    let now = unix_now();
    session_claims_at(resp, user_id, now)
}

} // verus!
