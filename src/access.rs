use vstd::prelude::*;

use crate::auth::AuthenticatedUser;
use crate::cache::State;
use crate::error::ApiError;
use crate::model::{
    contains_id, groups_view, Config, ConfigModel, GroupModel, Guild, Id, Member, PermissionGroup,
};
use crate::permissions::{effective_permissions, Permission, PermissionSet};

verus! {

/// What was learned of the caller's platform roles.
#[derive(Debug)]
pub enum RoleData {
    /// The guild could not be had; there is no role data.
    Unavailable,
    /// The guild and the caller's membership in it.
    Loaded(Guild, Member),
    /// The guild was had but the member lookup failed.
    MemberFailed(ApiError),
}

/// Whether the platform roles of the caller grant `p`.
pub open spec fn roles_grant(data: RoleData, p: Permission) -> bool {
    match data {
        RoleData::Loaded(g, m) => effective_permissions(g.roles@, m.roles@).grants(p),
        _ => false,
    }
}

/// Whether some group holds the user and some group, not necessarily the same one,
/// grants `p`.
pub open spec fn groups_grant(groups: Seq<GroupModel>, user: Id, p: Permission) -> bool {
    &&& exists|i: int| 0 <= i < groups.len() && (#[trigger] groups[i]).users.contains(user)
    &&& exists|j: int| 0 <= j < groups.len() && (#[trigger] groups[j]).permissions.grants(p)
}

/// Whether the permission groups of a configuration grant `p` to `user`.
pub open spec fn config_groups_grant(config: ConfigModel, user: Id, p: Permission) -> bool {
    match config.permission_groups {
        Some(gs) => groups_grant(gs, user, p),
        None => false,
    }
}

/// The outcome of a permission check: a failed member lookup is passed on; otherwise
/// platform roles (when the configuration inherits them) or permission groups may grant.
pub open spec fn permission_outcome(
    config: ConfigModel,
    user: Id,
    p: Permission,
    data: RoleData,
) -> Result<bool, ApiError> {
    if config.inherit_discord_perms && data is MemberFailed {
        Err(data->MemberFailed_0)
    } else {
        Ok((config.inherit_discord_perms && roles_grant(data, p)) || config_groups_grant(
            config,
            user,
            p,
        ))
    }
}

fn any_group_has_user(groups: &Vec<PermissionGroup>, user: Id) -> (r: bool)
    ensures
        r == exists|i: int| 0 <= i < groups@.len() && (#[trigger] groups@[i]).users@.contains(user),
{
    let mut i: usize = 0;
    while i < groups.len()
        invariant
            i <= groups@.len(),
            forall|k: int| 0 <= k < i ==> !(#[trigger] groups@[k]).users@.contains(user),
        decreases groups.len() - i,
    {
        if contains_id(&groups[i].users, user) {
            return true;
        }
        i = i + 1;
    }
    false
}

fn any_group_grants(groups: &Vec<PermissionGroup>, p: Permission) -> (r: bool)
    ensures
        r == exists|i: int| 0 <= i < groups@.len() && (#[trigger] groups@[i]).permissions.grants(p),
{
    let mut i: usize = 0;
    while i < groups.len()
        invariant
            i <= groups@.len(),
            forall|k: int| 0 <= k < i ==> !(#[trigger] groups@[k]).permissions.grants(p),
        decreases groups.len() - i,
    {
        if groups[i].permissions.has_permission(&p) {
            return true;
        }
        i = i + 1;
    }
    false
}

proof fn lemma_groups_view(gs: Seq<PermissionGroup>, user: Id, p: Permission)
    ensures
        groups_grant(groups_view(gs), user, p) == ((exists|i: int|
            0 <= i < gs.len() && (#[trigger] gs[i]).users@.contains(user)) && (exists|i: int|
            0 <= i < gs.len() && (#[trigger] gs[i]).permissions.grants(p))),
{
    let v = groups_view(gs);
    assert(v.len() == gs.len());
    if exists|i: int| 0 <= i < gs.len() && (#[trigger] gs[i]).users@.contains(user) {
        let i = choose|i: int| 0 <= i < gs.len() && (#[trigger] gs[i]).users@.contains(user);
        assert(v[i].users.contains(user));
    }
    if exists|i: int| 0 <= i < v.len() && (#[trigger] v[i]).users.contains(user) {
        let i = choose|i: int| 0 <= i < v.len() && (#[trigger] v[i]).users.contains(user);
        assert(gs[i].users@.contains(user));
    }
    if exists|i: int| 0 <= i < gs.len() && (#[trigger] gs[i]).permissions.grants(p) {
        let i = choose|i: int| 0 <= i < gs.len() && (#[trigger] gs[i]).permissions.grants(p);
        assert(v[i].permissions.grants(p));
    }
    if exists|i: int| 0 <= i < v.len() && (#[trigger] v[i]).permissions.grants(p) {
        let i = choose|i: int| 0 <= i < v.len() && (#[trigger] v[i]).permissions.grants(p);
        assert(gs[i].permissions.grants(p));
    }
}

impl State {
    /// Decides whether `user` holds `perm` on `config`. When the configuration inherits
    /// platform permissions, `roles` is what was fetched of the caller's roles.
    pub fn check_permission(
        &self,
        config: &Config,
        user: &AuthenticatedUser,
        perm: Permission,
        roles: RoleData,
    ) -> (r: Result<bool, ApiError>)
        ensures
            r == permission_outcome(config@, user.user_id, perm, roles),
    {
        let ghost data = roles;
        if config.inherit_discord_perms {
            match roles {
                RoleData::Loaded(guild, member) => {
                    let perms = PermissionSet::from_discord_permissions(
                        &guild.roles,
                        &member.roles,
                    );
                    if perms.has_permission(&perm) {
                        return Ok(true);
                    }
                },
                RoleData::MemberFailed(e) => {
                    return Err(e);
                },
                RoleData::Unavailable => {},
            }
        }
        match &config.permission_groups {
            Some(groups) => {
                proof {
                    lemma_groups_view(groups@, user.user_id, perm);
                }
                Ok(any_group_has_user(groups, user.user_id) && any_group_grants(groups, perm))
            },
            None => Ok(false),
        }
    }
}

/// Without inherited platform permissions and without groups, nothing is granted.
pub proof fn lemma_no_sources_deny(config: ConfigModel, user: Id, p: Permission, data: RoleData)
    requires
        !config.inherit_discord_perms,
        config.permission_groups is None,
    ensures
        permission_outcome(config, user, p, data) == Ok::<bool, ApiError>(false),
{
}

/// The group check is two independent existence tests: a group holding the user and a
/// group granting the permission suffice, even when they are different groups.
pub proof fn lemma_groups_independent(
    config: ConfigModel,
    user: Id,
    p: Permission,
    data: RoleData,
    i: int,
    j: int,
)
    requires
        config.permission_groups is Some,
        0 <= i < config.permission_groups->0.len(),
        0 <= j < config.permission_groups->0.len(),
        config.permission_groups->0[i].users.contains(user),
        config.permission_groups->0[j].permissions.grants(p),
        !(config.inherit_discord_perms && data is MemberFailed),
    ensures
        permission_outcome(config, user, p, data) == Ok::<bool, ApiError>(true),
{
    let gs = config.permission_groups->0;
    assert(gs[i].users.contains(user));
    assert(gs[j].permissions.grants(p));
}

/// When the guild cannot be had, the check falls back to the groups and does not fail;
/// without groups it denies.
pub proof fn lemma_guild_outage_denies(config: ConfigModel, user: Id, p: Permission)
    requires
        config.inherit_discord_perms,
        config.permission_groups is None,
    ensures
        permission_outcome(config, user, p, RoleData::Unavailable) == Ok::<bool, ApiError>(false),
{
}

/// When the member lookup fails, its error is what the check returns.
pub proof fn lemma_member_failure_propagates(
    config: ConfigModel,
    user: Id,
    p: Permission,
    e: ApiError,
)
    requires
        config.inherit_discord_perms,
    ensures
        permission_outcome(config, user, p, RoleData::MemberFailed(e)) == Err::<bool, ApiError>(e),
{
}

} // verus!
