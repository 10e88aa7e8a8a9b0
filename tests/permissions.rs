use mesa_api::access::RoleData;
use mesa_api::auth::AuthenticatedUser;
use mesa_api::cache::State;
use mesa_api::error::ApiError;
use mesa_api::model::{Config, Guild, Id, Member, PermissionGroup, Role};
use mesa_api::permissions::{
    Permission, PermissionSet, ADMINISTRATOR, MANAGE_GUILD, VIEW_AUDIT_LOG,
};

fn user(id: u64) -> AuthenticatedUser {
    AuthenticatedUser {
        user_id: Id(id),
        discord_token: "tok".to_string(),
        discord_refresh: "ref".to_string(),
    }
}

fn config(inherit: bool, groups: Option<Vec<PermissionGroup>>) -> Config {
    Config { id: Id(10), inherit_discord_perms: inherit, permission_groups: groups }
}

fn none() -> PermissionSet {
    PermissionSet { config_view: false, config_edit: false }
}

fn view_only() -> PermissionSet {
    PermissionSet { config_view: true, config_edit: false }
}

fn guild_with(bits: u64) -> Guild {
    Guild { id: Id(10), roles: vec![Role { id: Id(500), permissions: bits }] }
}

#[test]
fn no_sources_deny_everything() {
    let state = State::new();
    let c = config(false, None);
    for p in [Permission::ConfigView, Permission::ConfigEdit] {
        let r = state.check_permission(&c, &user(1), p, RoleData::Unavailable);
        assert!(matches!(r, Ok(false)));
        let loaded = RoleData::Loaded(
            guild_with(ADMINISTRATOR),
            Member { user_id: Id(1), roles: vec![Id(500)] },
        );
        let r = state.check_permission(&c, &user(1), p, loaded);
        assert!(matches!(r, Ok(false)));
    }
}

#[test]
fn groups_are_checked_independently() {
    let state = State::new();
    let g1 = PermissionGroup { users: vec![Id(1)], permissions: none() };
    let g2 = PermissionGroup { users: vec![], permissions: view_only() };
    let c = config(false, Some(vec![g1, g2]));
    let r = state.check_permission(&c, &user(1), Permission::ConfigView, RoleData::Unavailable);
    assert!(matches!(r, Ok(true)));
    let r = state.check_permission(&c, &user(1), Permission::ConfigEdit, RoleData::Unavailable);
    assert!(matches!(r, Ok(false)));
    let r = state.check_permission(&c, &user(2), Permission::ConfigView, RoleData::Unavailable);
    assert!(matches!(r, Ok(false)));
}

#[test]
fn guild_outage_is_a_denial() {
    let state = State::new();
    let c = config(true, None);
    let r = state.check_permission(&c, &user(1), Permission::ConfigView, RoleData::Unavailable);
    assert!(matches!(r, Ok(false)));
}

#[test]
fn guild_outage_falls_back_to_groups() {
    let state = State::new();
    let g = PermissionGroup { users: vec![Id(1)], permissions: view_only() };
    let c = config(true, Some(vec![g]));
    let r = state.check_permission(&c, &user(1), Permission::ConfigView, RoleData::Unavailable);
    assert!(matches!(r, Ok(true)));
}

#[test]
fn member_failure_is_propagated() {
    let state = State::new();
    let c = config(true, None);
    let data = RoleData::MemberFailed(ApiError::Discord("unavailable".to_string()));
    let r = state.check_permission(&c, &user(1), Permission::ConfigView, data);
    assert!(matches!(r, Err(ApiError::Discord(_))));
}

#[test]
fn member_failure_is_ignored_without_inheritance() {
    let state = State::new();
    let c = config(false, None);
    let data = RoleData::MemberFailed(ApiError::Discord("unavailable".to_string()));
    let r = state.check_permission(&c, &user(1), Permission::ConfigView, data);
    assert!(matches!(r, Ok(false)));
}

#[test]
fn held_admin_role_grants_edit() {
    let state = State::new();
    let c = config(true, None);
    let data = RoleData::Loaded(
        guild_with(ADMINISTRATOR),
        Member { user_id: Id(1), roles: vec![Id(500)] },
    );
    let r = state.check_permission(&c, &user(1), Permission::ConfigEdit, data);
    assert!(matches!(r, Ok(true)));
}

#[test]
fn role_not_held_grants_nothing() {
    let state = State::new();
    let c = config(true, None);
    let data = RoleData::Loaded(
        guild_with(ADMINISTRATOR),
        Member { user_id: Id(1), roles: vec![Id(501)] },
    );
    let r = state.check_permission(&c, &user(1), Permission::ConfigEdit, data);
    assert!(matches!(r, Ok(false)));
}

#[test]
fn translation_table() {
    assert_eq!(PermissionSet::from_role_bits(0), none());
    assert_eq!(
        PermissionSet::from_role_bits(ADMINISTRATOR),
        PermissionSet { config_view: true, config_edit: true }
    );
    assert_eq!(
        PermissionSet::from_role_bits(MANAGE_GUILD),
        PermissionSet { config_view: true, config_edit: true }
    );
    assert_eq!(PermissionSet::from_role_bits(VIEW_AUDIT_LOG), view_only());
    assert_eq!(PermissionSet::from_role_bits(1 | 2 | 4), none());
}

#[test]
fn effective_set_is_union_of_held_roles() {
    let roles = vec![
        Role { id: Id(1), permissions: VIEW_AUDIT_LOG },
        Role { id: Id(2), permissions: MANAGE_GUILD },
        Role { id: Id(3), permissions: 0 },
    ];
    let s = PermissionSet::from_discord_permissions(&roles, &vec![Id(1), Id(3)]);
    assert_eq!(s, view_only());
    let s = PermissionSet::from_discord_permissions(&roles, &vec![Id(3), Id(2)]);
    assert_eq!(s, PermissionSet { config_view: true, config_edit: true });
    let s = PermissionSet::from_discord_permissions(&roles, &vec![Id(9)]);
    assert_eq!(s, none());
}

#[test]
fn union_keeps_grants() {
    let a = view_only();
    let b = PermissionSet { config_view: false, config_edit: true };
    let u = a.union(&b);
    assert!(u.has_permission(&Permission::ConfigView));
    assert!(u.has_permission(&Permission::ConfigEdit));
    assert!(!PermissionSet::empty().has_permission(&Permission::ConfigView));
}
