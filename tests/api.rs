use mesa_api::api::{check_post_target, load_config, parse_path_id, require_permission};
use mesa_api::cache::State;
use mesa_api::error::ApiError;
use mesa_api::model::{Config, Id};

fn config(id: u64) -> Config {
    Config { id: Id(id), inherit_discord_perms: false, permission_groups: None }
}

#[test]
fn id_parsing() {
    assert_eq!(Id::from_str("123"), Some(Id(123)));
    assert_eq!(Id::from_str("0"), Some(Id(0)));
    assert_eq!(Id::from_str("18446744073709551615"), Some(Id(u64::MAX)));
    assert_eq!(Id::from_str("18446744073709551616"), None);
    assert_eq!(Id::from_str(""), None);
    assert_eq!(Id::from_str("12a"), None);
    assert_eq!(Id::from_str("-1"), None);
    assert_eq!(Id::new(9), Id(9));
}

#[test]
fn malformed_path_id_is_a_parse_error() {
    assert!(matches!(parse_path_id("abc"), Err(ApiError::ParseError)));
    assert!(matches!(check_post_target("abc", &config(1)), Err(ApiError::ParseError)));
    let mut state = State::new();
    state.update_config(&Id(1), &config(1), 0);
    assert!(matches!(load_config(&mut state, "abc", 0), Err(ApiError::ParseError)));
    assert_eq!(ApiError::ParseError.status_code(), 400);
}

#[test]
fn body_id_must_match_path() {
    assert!(matches!(check_post_target("2", &config(1)), Err(ApiError::BadRequest)));
    assert_eq!(check_post_target("1", &config(1)).unwrap(), Id(1));
    assert_eq!(ApiError::BadRequest.status_code(), 400);
}

#[test]
fn load_missing_config_is_not_found() {
    let mut state = State::new();
    assert!(matches!(load_config(&mut state, "5", 0), Err(ApiError::NotFound)));
    assert_eq!(ApiError::NotFound.status_code(), 404);
    state.update_config(&Id(5), &config(5), 0);
    assert_eq!(load_config(&mut state, "5", 100).unwrap().id, Id(5));
}

#[test]
fn denial_is_unauthorized() {
    assert!(require_permission(Ok(true)).is_ok());
    assert!(matches!(require_permission(Ok(false)), Err(ApiError::Auth)));
    let r = require_permission(Err(ApiError::Database("x".to_string())));
    assert!(matches!(r, Err(ApiError::Database(_))));
    assert_eq!(ApiError::Auth.status_code(), 401);
    assert_eq!(ApiError::Internal.status_code(), 500);
    assert_eq!(ApiError::Cache("c".to_string()).status_code(), 500);
}
