use vstd::prelude::*;
use vstd::string::StrSliceExecFns;

use crate::permissions::PermissionSet;

verus! {

/// A 64-bit snowflake identifier; its canonical text form is decimal.
#[derive(Clone, Copy, Debug, PartialEq, Eq, Structural, Hash)]
pub struct Id(pub u64);

pub open spec fn is_digit(c: char) -> bool {
    '0' <= c && c <= '9'
}

pub open spec fn digit_value(c: char) -> nat {
    (c as u32 - '0' as u32) as nat
}

/// The number written by a string of decimal digits, most significant first.
pub open spec fn decimal_value(s: Seq<char>) -> nat
    decreases s.len(),
{
    if s.len() == 0 {
        0
    } else {
        decimal_value(s.drop_last()) * 10 + digit_value(s.last())
    }
}

/// A well-formed identifier: one or more decimal digits whose value fits in 64 bits.
pub open spec fn is_id_text(s: Seq<char>) -> bool {
    &&& s.len() > 0
    &&& forall|i: int| 0 <= i < s.len() ==> is_digit(#[trigger] s[i])
    &&& decimal_value(s) <= u64::MAX
}

proof fn lemma_decimal_prefix_step(s: Seq<char>, i: int)
    requires
        0 <= i < s.len(),
    ensures
        decimal_value(s.subrange(0, i + 1)) == decimal_value(s.subrange(0, i)) * 10
            + digit_value(s[i]),
{
    assert(s.subrange(0, i + 1).drop_last() =~= s.subrange(0, i));
}

proof fn lemma_decimal_monotone(s: Seq<char>, i: int)
    requires
        0 <= i <= s.len(),
    ensures
        decimal_value(s.subrange(0, i)) <= decimal_value(s),
    decreases s.len() - i,
{
    if i < s.len() {
        lemma_decimal_prefix_step(s, i);
        lemma_decimal_monotone(s, i + 1);
    } else {
        assert(s.subrange(0, i) =~= s);
    }
}

/// A platform role and the permission bitfield it carries.
#[derive(Clone, Copy, Debug, PartialEq, Eq, Structural)]
pub struct Role {
    pub id: Id,
    pub permissions: u64,
}

/// A guild as the upstream API reports it: its id and its roles, in order.
#[derive(Debug)]
pub struct Guild {
    pub id: Id,
    pub roles: Vec<Role>,
}

/// A guild member: the user and the ids of the roles the user holds.
#[derive(Debug)]
pub struct Member {
    pub user_id: Id,
    pub roles: Vec<Id>,
}

/// An application-defined group of users sharing a set of permissions.
#[derive(Debug)]
pub struct PermissionGroup {
    pub users: Vec<Id>,
    pub permissions: PermissionSet,
}

/// The per-guild configuration object.
#[derive(Debug)]
pub struct Config {
    pub id: Id,
    pub inherit_discord_perms: bool,
    pub permission_groups: Option<Vec<PermissionGroup>>,
}

/// Whether `v` holds `id`.
pub fn contains_id(v: &Vec<Id>, id: Id) -> (r: bool)
    ensures
        r == v@.contains(id),
{
    let mut i: usize = 0;
    while i < v.len()
        invariant
            i <= v@.len(),
            forall|k: int| 0 <= k < i ==> v@[k] != id,
        decreases v.len() - i,
    {
        if v[i] == id {
            return true;
        }
        i = i + 1;
    }
    false
}

/// A copy of a list of ids.
pub fn copy_ids(v: &Vec<Id>) -> (r: Vec<Id>)
    ensures
        r@ == v@,
{
    let mut r: Vec<Id> = Vec::new();
    let mut i: usize = 0;
    while i < v.len()
        invariant
            i <= v@.len(),
            r@ == v@.subrange(0, i as int),
        decreases v.len() - i,
    {
        r.push(v[i]);
        i = i + 1;
    }
    assert(r@ =~= v@);
    r
}

/// A copy of a list of roles.
pub fn copy_roles(v: &Vec<Role>) -> (r: Vec<Role>)
    ensures
        r@ == v@,
{
    let mut r: Vec<Role> = Vec::new();
    let mut i: usize = 0;
    while i < v.len()
        invariant
            i <= v@.len(),
            r@ == v@.subrange(0, i as int),
        decreases v.len() - i,
    {
        r.push(v[i]);
        i = i + 1;
    }
    assert(r@ =~= v@);
    r
}

/// The mathematical value of a guild.
pub struct GuildModel {
    pub id: Id,
    pub roles: Seq<Role>,
}

/// The mathematical value of a member.
pub struct MemberModel {
    pub user_id: Id,
    pub roles: Seq<Id>,
}

/// The mathematical value of a permission group.
pub struct GroupModel {
    pub users: Seq<Id>,
    pub permissions: PermissionSet,
}

/// The mathematical value of a configuration.
pub struct ConfigModel {
    pub id: Id,
    pub inherit_discord_perms: bool,
    pub permission_groups: Option<Seq<GroupModel>>,
}

impl View for Guild {
    type V = GuildModel;

    open spec fn view(&self) -> GuildModel {
        GuildModel { id: self.id, roles: self.roles@ }
    }
}

impl View for Member {
    type V = MemberModel;

    open spec fn view(&self) -> MemberModel {
        MemberModel { user_id: self.user_id, roles: self.roles@ }
    }
}

impl View for PermissionGroup {
    type V = GroupModel;

    open spec fn view(&self) -> GroupModel {
        GroupModel { users: self.users@, permissions: self.permissions }
    }
}

impl View for Config {
    type V = ConfigModel;

    open spec fn view(&self) -> ConfigModel {
        ConfigModel {
            id: self.id,
            inherit_discord_perms: self.inherit_discord_perms,
            permission_groups: match self.permission_groups {
                Some(g) => Some(groups_view(g@)),
                None => None,
            },
        }
    }
}

pub open spec fn groups_view(gs: Seq<PermissionGroup>) -> Seq<GroupModel> {
    gs.map_values(|g: PermissionGroup| g@)
}

impl Guild {
    pub fn copy(&self) -> (r: Guild)
        ensures
            r@ == self@,
    {
        Guild { id: self.id, roles: copy_roles(&self.roles) }
    }
}

impl Member {
    pub fn copy(&self) -> (r: Member)
        ensures
            r@ == self@,
    {
        Member { user_id: self.user_id, roles: copy_ids(&self.roles) }
    }
}

impl PermissionGroup {
    pub fn copy(&self) -> (r: PermissionGroup)
        ensures
            r@ == self@,
    {
        PermissionGroup { users: copy_ids(&self.users), permissions: self.permissions }
    }
}

/// A copy of a list of permission groups.
pub fn copy_groups(v: &Vec<PermissionGroup>) -> (r: Vec<PermissionGroup>)
    ensures
        groups_view(r@) == groups_view(v@),
{
    let mut r: Vec<PermissionGroup> = Vec::new();
    let mut i: usize = 0;
    while i < v.len()
        invariant
            i <= v@.len(),
            r@.len() == i,
            forall|k: int| 0 <= k < i ==> (#[trigger] r@[k])@ == v@[k]@,
        decreases v.len() - i,
    {
        r.push(v[i].copy());
        i = i + 1;
    }
    assert(groups_view(r@) =~= groups_view(v@));
    r
}

impl Config {
    pub fn copy(&self) -> (r: Config)
        ensures
            r@ == self@,
    {
        let groups = match &self.permission_groups {
            Some(g) => Some(copy_groups(g)),
            None => None,
        };
        Config {
            id: self.id,
            inherit_discord_perms: self.inherit_discord_perms,
            permission_groups: groups,
        }
    }
}

impl Id {
    pub fn new(value: u64) -> (r: Id)
        ensures
            r.0 == value,
    {
        Id(value)
    }

    /// Parses the decimal text form of an identifier.
    pub fn from_str(s: &str) -> (r: Option<Id>)
        ensures
            r.is_some() <==> is_id_text(s@),
            r.is_some() ==> r.unwrap().0 == decimal_value(s@),
    {
        let n = s.unicode_len();
        if n == 0 {
            return None;
        }
        let mut acc: u64 = 0;
        let mut i: usize = 0;
        while i < n
            invariant
                n == s@.len(),
                i <= n,
                forall|k: int| 0 <= k < i ==> is_digit(#[trigger] s@[k]),
                acc == decimal_value(s@.subrange(0, i as int)),
            decreases n - i,
        {
            let c = s.get_char(i);
            if !('0' <= c && c <= '9') {
                return None;
            }
            let d = (c as u32 - '0' as u32) as u64;
            proof {
                lemma_decimal_prefix_step(s@, i as int);
            }
            if acc > (u64::MAX - d) / 10 {
                proof {
                    lemma_decimal_monotone(s@, i as int + 1);
                    assert(acc * 10 + d > u64::MAX) by (nonlinear_arith)
                        requires
                            acc > (u64::MAX - d) / 10,
                            d <= 9,
                    ;
                }
                return None;
            }
            assert(acc * 10 + d <= u64::MAX) by (nonlinear_arith)
                requires
                    acc <= (u64::MAX - d) / 10,
                    d <= 9,
            ;
            acc = acc * 10 + d;
            i = i + 1;
        }
        assert(s@.subrange(0, n as int) =~= s@);
        Some(Id(acc))
    }
}

} // verus!
