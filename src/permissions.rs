use vstd::prelude::*;

use crate::model::{contains_id, Id, Role};

verus! {

/// A capability on a guild's configuration.
#[derive(Clone, Copy, Debug, PartialEq, Eq, Structural)]
pub enum Permission {
    ConfigView,
    ConfigEdit,
}

/// A set of granted permissions, one flag per permission.
#[derive(Clone, Copy, Debug, PartialEq, Eq, Structural)]
pub struct PermissionSet {
    pub config_view: bool,
    pub config_edit: bool,
}

/// Platform permission bit: full administrator.
pub const ADMINISTRATOR: u64 = 8;

/// Platform permission bit: may manage the guild.
pub const MANAGE_GUILD: u64 = 32;

/// Platform permission bit: may view the audit log.
pub const VIEW_AUDIT_LOG: u64 = 128;

impl PermissionSet {
    pub open spec fn view(&self) -> Set<Permission> {
        Set::new(|p: Permission| self.grants(p))
    }

    pub open spec fn grants(&self, p: Permission) -> bool {
        match p {
            Permission::ConfigView => self.config_view,
            Permission::ConfigEdit => self.config_edit,
        }
    }

    pub open spec fn spec_union(&self, other: PermissionSet) -> PermissionSet {
        PermissionSet {
            config_view: self.config_view || other.config_view,
            config_edit: self.config_edit || other.config_edit,
        }
    }

    pub fn empty() -> (r: PermissionSet)
        ensures
            r@ == Set::<Permission>::empty(),
            !r.config_view && !r.config_edit,
    {
        let r = PermissionSet { config_view: false, config_edit: false };
        assert(r@ =~= Set::<Permission>::empty());
        r
    }

    pub fn has_permission(&self, p: &Permission) -> (r: bool)
        ensures
            r == self@.contains(*p),
    {
        match p {
            Permission::ConfigView => self.config_view,
            Permission::ConfigEdit => self.config_edit,
        }
    }

    pub fn union(&self, other: &PermissionSet) -> (r: PermissionSet)
        ensures
            r == self.spec_union(*other),
            r@ == self@.union(other@),
    {
        let r = PermissionSet {
            config_view: self.config_view || other.config_view,
            config_edit: self.config_edit || other.config_edit,
        };
        assert(r@ =~= self@.union(other@));
        r
    }

    /// The translation of one role's platform permission bitfield.
    pub fn from_role_bits(bits: u64) -> (r: PermissionSet)
        ensures
            r == role_permissions(bits),
    {
        let admin = bits & ADMINISTRATOR != 0 || bits & MANAGE_GUILD != 0;
        PermissionSet { config_view: admin || bits & VIEW_AUDIT_LOG != 0, config_edit: admin }
    }

    /// The union of the translated permissions of each guild role that the member holds.
    pub fn from_discord_permissions(roles: &Vec<Role>, member_roles: &Vec<Id>) -> (r:
        PermissionSet)
        ensures
            r == effective_permissions(roles@, member_roles@),
    {
        let mut acc = PermissionSet::empty();
        proof {
            assert(roles@.subrange(0, 0).len() == 0);
        }
        let mut i: usize = 0;
        while i < roles.len()
            invariant
                i <= roles@.len(),
                acc == effective_permissions(roles@.subrange(0, i as int), member_roles@),
            decreases roles.len() - i,
        {
            let role = roles[i];
            proof {
                assert(roles@.subrange(0, i as int + 1).drop_last() =~= roles@.subrange(
                    0,
                    i as int,
                ));
            }
            if contains_id(member_roles, role.id) {
                acc = acc.union(&PermissionSet::from_role_bits(role.permissions));
            }
            i = i + 1;
        }
        assert(roles@.subrange(0, roles@.len() as int) =~= roles@);
        acc
    }
}

/// The fixed translation table from a platform permission bitfield: administrators and
/// guild managers may view and edit, audit-log viewers may view.
pub open spec fn role_permissions(bits: u64) -> PermissionSet {
    let admin = bits & ADMINISTRATOR != 0 || bits & MANAGE_GUILD != 0;
    PermissionSet { config_view: admin || bits & VIEW_AUDIT_LOG != 0, config_edit: admin }
}

/// The union, over the guild's roles in order, of the translations of those the member holds.
pub open spec fn effective_permissions(roles: Seq<Role>, held: Seq<Id>) -> PermissionSet
    decreases roles.len(),
{
    if roles.len() == 0 {
        PermissionSet { config_view: false, config_edit: false }
    } else {
        let rest = effective_permissions(roles.drop_last(), held);
        if held.contains(roles.last().id) {
            rest.spec_union(role_permissions(roles.last().permissions))
        } else {
            rest
        }
    }
}

/// A permission is in the effective set exactly when some guild role that the member
/// holds grants it.
pub proof fn lemma_effective_grants(roles: Seq<Role>, held: Seq<Id>, p: Permission)
    ensures
        effective_permissions(roles, held).grants(p) <==> exists|i: int|
            0 <= i < roles.len() && held.contains(#[trigger] roles[i].id) && role_permissions(
                roles[i].permissions,
            ).grants(p),
    decreases roles.len(),
{
    if roles.len() > 0 {
        let init = roles.drop_last();
        lemma_effective_grants(init, held, p);
        if effective_permissions(roles, held).grants(p) {
            if !(held.contains(roles.last().id) && role_permissions(
                roles.last().permissions,
            ).grants(p)) {
                let i = choose|i: int|
                    0 <= i < init.len() && held.contains(#[trigger] init[i].id)
                        && role_permissions(init[i].permissions).grants(p);
                assert(roles[i] == init[i]);
            } else {
                assert(roles[roles.len() - 1] == roles.last());
            }
        }
        if exists|i: int|
            0 <= i < roles.len() && held.contains(#[trigger] roles[i].id) && role_permissions(
                roles[i].permissions,
            ).grants(p) {
            let i = choose|i: int|
                0 <= i < roles.len() && held.contains(#[trigger] roles[i].id) && role_permissions(
                    roles[i].permissions,
                ).grants(p);
            if i < roles.len() - 1 {
                assert(init[i] == roles[i]);
            }
        }
    }
}

/// Union never removes a grant.
pub proof fn lemma_union_monotone(a: PermissionSet, b: PermissionSet)
    ensures
        a@.subset_of(a.spec_union(b)@),
        b@.subset_of(a.spec_union(b)@),
{
}

} // verus!
