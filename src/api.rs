use vstd::prelude::*;

use crate::cache::{cache_after_read, read_config, State};
use crate::error::ApiError;
use crate::model::{decimal_value, is_id_text, Config, ConfigModel, Id};

verus! {

/// The identifier named by a request path segment.
pub open spec fn path_outcome(path: Seq<char>) -> Result<Id, ApiError> {
    if is_id_text(path) {
        Ok(Id(decimal_value(path) as u64))
    } else {
        Err(ApiError::ParseError)
    }
}

/// Parses the `{id}` segment of a configuration path.
pub fn parse_path_id(path: &str) -> (r: Result<Id, ApiError>)
    ensures
        r == path_outcome(path@),
{
    match Id::from_str(path) {
        Some(id) => Ok(id),
        None => Err(ApiError::ParseError),
    }
}

/// The checks made on a configuration write before any permission check or store call:
/// the path must name an id, and the body must be the configuration of that id.
pub fn check_post_target(path: &str, body: &Config) -> (r: Result<Id, ApiError>)
    ensures
        r == match path_outcome(path@) {
            Ok(id) => if id == body.id {
                Ok(id)
            } else {
                Err(ApiError::BadRequest)
            },
            Err(e) => Err(e),
        },
{
    let id = parse_path_id(path)?;
    if id != body.id {
        return Err(ApiError::BadRequest);
    }
    Ok(id)
}

pub open spec fn config_result_view(r: Result<Config, ApiError>) -> Result<ConfigModel, ApiError> {
    match r {
        Ok(c) => Ok(c@),
        Err(e) => Err(e),
    }
}

/// Loads the configuration named by a request path, through the cache. A malformed path
/// is refused before the store or the cache are consulted.
pub fn load_config(state: &mut State, path: &str, now: i64) -> (r: Result<Config, ApiError>)
    ensures
        path_outcome(path@) is Err ==> r == Err::<Config, ApiError>(ApiError::ParseError)
            && final(state).store@ == old(state).store@ && final(state).cache@ == old(state).cache@,
        path_outcome(path@) is Ok ==> config_result_view(r) == match read_config(
            old(state).cache@,
            old(state).store@,
            path_outcome(path@)->Ok_0,
            now,
        ) {
            Some(c) => Ok(c),
            None => Err(ApiError::NotFound),
        },
        path_outcome(path@) is Ok ==> final(state).store@ == old(state).store@,
        path_outcome(path@) is Ok ==> final(state).cache@ == cache_after_read(
            old(state).cache@,
            old(state).store@,
            path_outcome(path@)->Ok_0,
            now,
        ),
{
    let id = parse_path_id(path)?;
    match state.get_config(&id, now) {
        Some(c) => Ok(c),
        None => Err(ApiError::NotFound),
    }
}

/// Turns the outcome of a permission check into the request's outcome: a denial is
/// reported as an authentication error.
pub fn require_permission(allowed: Result<bool, ApiError>) -> (r: Result<(), ApiError>)
    ensures
        r == match allowed {
            Ok(true) => Ok(()),
            Ok(false) => Err(ApiError::Auth),
            Err(e) => Err::<(), ApiError>(e),
        },
{
    match allowed {
        Ok(true) => Ok(()),
        Ok(false) => Err(ApiError::Auth),
        Err(e) => Err(e),
    }
}

} // verus!
