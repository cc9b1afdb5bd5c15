//! The whitelist: which users and roles hold which permission level.

use vstd::prelude::*;
use vstd::string::*;
use std::collections::HashMap;

verus! {

/// The permission levels, from the lowest to the highest.
#[derive(Debug, Clone, Copy, PartialEq, Eq, PartialOrd, Ord, Hash, Structural)]
pub enum PermissionLevel {
    /// May look.
    User,
    /// May also disconnect by hand.
    Moderator,
    /// May also manage permissions.
    Admin,
}

impl PermissionLevel {
    /// The place of the level in the order: 0 for the lowest.
    pub open spec fn spec_rank(self) -> int {
        match self {
            PermissionLevel::User => 0,
            PermissionLevel::Moderator => 1,
            PermissionLevel::Admin => 2,
        }
    }

    /// The name of the level as it is shown.
    pub open spec fn spec_label(self) -> Seq<char> {
        match self {
            PermissionLevel::User => "👤 User"@,
            PermissionLevel::Moderator => "🛡️ Moderator"@,
            PermissionLevel::Admin => "👑 Admin"@,
        }
    }

    /// The place of the level in the order: 0 for the lowest.
    pub fn rank(&self) -> (rank: u8)
        ensures
            rank == self.spec_rank(),
    {
        match self {
            PermissionLevel::User => 0,
            PermissionLevel::Moderator => 1,
            PermissionLevel::Admin => 2,
        }
    }

    /// Whether this level is `required` or higher.
    pub fn at_least(&self, required: PermissionLevel) -> (enough: bool)
        ensures
            enough == (self.spec_rank() >= required.spec_rank()),
    {
        self.rank() >= required.rank()
    }

    /// The name of the level as it is shown.
    pub fn label(&self) -> (text: &'static str)
        ensures
            text@ == self.spec_label(),
    {
        match self {
            PermissionLevel::User => "👤 User",
            PermissionLevel::Moderator => "🛡️ Moderator",
            PermissionLevel::Admin => "👑 Admin",
        }
    }
}

/// The levels form a total order with User below Moderator below Admin:
/// two levels of the same rank are the same level, and of two levels one
/// is at least the other.
pub proof fn law_levels_totally_ordered(a: PermissionLevel, b: PermissionLevel)
    ensures
        a.spec_rank() == b.spec_rank() <==> a == b,
        a.spec_rank() >= b.spec_rank() || b.spec_rank() >= a.spec_rank(),
        PermissionLevel::User.spec_rank() < PermissionLevel::Moderator.spec_rank()
            < PermissionLevel::Admin.spec_rank(),
{
}

/// When the whitelist was last changed, by whom, and how much it holds.
#[derive(Debug, Clone)]
pub struct PermissionMetadata {
    /// Seconds on the caller's clock at the last change.
    pub last_modified: i64,
    /// How many users the whitelist held after the last change.
    pub total_users: usize,
    /// How many roles the whitelist held after the last change.
    pub total_roles: usize,
    /// Who made the last change, where known.
    pub modified_by: Option<String>,
}

/// The levels granted to users and to roles, by identifier.
#[derive(Debug, Clone)]
pub struct GroupPermissions {
    /// The level of each whitelisted user.
    pub users: HashMap<u64, PermissionLevel>,
    /// The level of each whitelisted role.
    pub roles: HashMap<u64, PermissionLevel>,
}

impl GroupPermissions {
    /// A whitelist that holds nobody.
    pub fn new() -> (group: GroupPermissions)
        ensures
            group.users@ == Map::<u64, PermissionLevel>::empty(),
            group.roles@ == Map::<u64, PermissionLevel>::empty(),
    {
        GroupPermissions { users: HashMap::new(), roles: HashMap::new() }
    }

    /// Grants `level` to the user, in place of any level held before.
    pub fn add_user(&mut self, user_id: u64, level: PermissionLevel)
        ensures
            final(self).users@ == old(self).users@.insert(user_id, level),
            final(self).roles@ == old(self).roles@,
    {
        broadcast use vstd::std_specs::hash::group_hash_axioms;

        self.users.insert(user_id, level);
    }

    /// Grants `level` to the role, in place of any level held before.
    pub fn add_role(&mut self, role_id: u64, level: PermissionLevel)
        ensures
            final(self).roles@ == old(self).roles@.insert(role_id, level),
            final(self).users@ == old(self).users@,
    {
        broadcast use vstd::std_specs::hash::group_hash_axioms;

        self.roles.insert(role_id, level);
    }

    /// Takes the user off the whitelist and tells whether it was on it.
    pub fn remove_user(&mut self, user_id: &u64) -> (removed: bool)
        ensures
            removed == old(self).users@.contains_key(*user_id),
            final(self).users@ == old(self).users@.remove(*user_id),
            final(self).roles@ == old(self).roles@,
    {
        broadcast use vstd::std_specs::hash::group_hash_axioms;

        self.users.remove(user_id).is_some()
    }

    /// Takes the role off the whitelist and tells whether it was on it.
    pub fn remove_role(&mut self, role_id: &u64) -> (removed: bool)
        ensures
            removed == old(self).roles@.contains_key(*role_id),
            final(self).roles@ == old(self).roles@.remove(*role_id),
            final(self).users@ == old(self).users@,
    {
        broadcast use vstd::std_specs::hash::group_hash_axioms;

        self.roles.remove(role_id).is_some()
    }

    /// The level of the user, if it is on the whitelist.
    pub fn get_user_level(&self, user_id: &u64) -> (level: Option<PermissionLevel>)
        ensures
            level == self.users@.get(*user_id),
    {
        broadcast use vstd::std_specs::hash::group_hash_axioms;

        match self.users.get(user_id) {
            Some(level) => Some(*level),
            None => None,
        }
    }

    /// The level of the role, if it is on the whitelist.
    pub fn get_role_level(&self, role_id: &u64) -> (level: Option<PermissionLevel>)
        ensures
            level == self.roles@.get(*role_id),
    {
        broadcast use vstd::std_specs::hash::group_hash_axioms;

        match self.roles.get(role_id) {
            Some(level) => Some(*level),
            None => None,
        }
    }
}

/// The stored whitelist: its format, what it grants, and its last change.
#[derive(Debug, Clone)]
pub struct UserPermissions {
    /// Version of the format.
    pub version: String,
    /// What is granted.
    pub permissions: GroupPermissions,
    /// When and by whom it was last changed.
    pub metadata: PermissionMetadata,
}

/// The version of the whitelist format written by this library.
pub open spec fn whitelist_version() -> Seq<char> {
    "1.1.0"@
}

impl UserPermissions {
    /// An empty whitelist made at `now`, seconds on the caller's clock.
    pub fn new(now: i64) -> (list: UserPermissions)
        ensures
            list.version@ == whitelist_version(),
            list.permissions.users@ == Map::<u64, PermissionLevel>::empty(),
            list.permissions.roles@ == Map::<u64, PermissionLevel>::empty(),
            list.metadata.last_modified == now,
            list.metadata.total_users == 0,
            list.metadata.total_roles == 0,
            list.metadata.modified_by is None,
    {
        UserPermissions {
            version: String::from_str("1.1.0"),
            permissions: GroupPermissions::new(),
            metadata: PermissionMetadata {
                last_modified: now,
                total_users: 0,
                total_roles: 0,
                modified_by: None,
            },
        }
    }

    /// Records a change made at `now` by `modified_by`: the counts are
    /// taken anew from what is granted.
    pub fn update_metadata(&mut self, modified_by: Option<String>, now: i64)
        ensures
            final(self).version == old(self).version,
            final(self).permissions == old(self).permissions,
            final(self).metadata.last_modified == now,
            final(self).metadata.total_users == old(self).permissions.users@.len(),
            final(self).metadata.total_roles == old(self).permissions.roles@.len(),
            final(self).metadata.modified_by == modified_by,
    {
        broadcast use vstd::std_specs::hash::group_hash_axioms;

        self.metadata.last_modified = now;
        self.metadata.total_users = self.permissions.users.len();
        self.metadata.total_roles = self.permissions.roles.len();
        self.metadata.modified_by = modified_by;
    }
}

/// Keeps the whitelist in its file.
#[derive(Debug, Clone)]
pub struct WhitelistManager {
    file_path: String,
}

/// The name of the whitelist file.
pub open spec fn whitelist_file() -> Seq<char> {
    "whitelist.json"@
}

impl WhitelistManager {
    /// The path of the file that holds the whitelist.
    pub closed spec fn spec_file_path(&self) -> Seq<char> {
        self.file_path@
    }

    /// A manager of the whitelist in its usual file.
    pub fn new() -> (manager: WhitelistManager)
        ensures
            manager.spec_file_path() == whitelist_file(),
    {
        WhitelistManager { file_path: String::from_str("whitelist.json") }
    }

    /// The path of the file that holds the whitelist.
    pub fn file_path(&self) -> (path: &str)
        ensures
            path@ == self.spec_file_path(),
    {
        self.file_path.as_str()
    }

    /// The whitelist to work on: the one loaded from the file, or an empty
    /// one made at `now` where there is no file yet.
    pub fn load_or_create(&self, loaded: Option<UserPermissions>, now: i64) -> (list:
        UserPermissions)
        ensures
            match loaded {
                Some(stored) => list == stored,
                None => {
                    &&& list.version@ == whitelist_version()
                    &&& list.permissions.users@ == Map::<u64, PermissionLevel>::empty()
                    &&& list.permissions.roles@ == Map::<u64, PermissionLevel>::empty()
                    &&& list.metadata.last_modified == now
                    &&& list.metadata.total_users == 0
                    &&& list.metadata.total_roles == 0
                    &&& list.metadata.modified_by is None
                },
            },
    {
        match loaded {
            Some(stored) => stored,
            None => UserPermissions::new(now),
        }
    }

    /// Grants `level` to the user in `list` and records the change.
    pub fn add_user(
        &self,
        list: &mut UserPermissions,
        user_id: u64,
        level: PermissionLevel,
        modified_by: Option<String>,
        now: i64,
    )
        ensures
            final(list).version == old(list).version,
            final(list).permissions.users@ == old(list).permissions.users@.insert(user_id, level),
            final(list).permissions.roles@ == old(list).permissions.roles@,
            final(list).metadata.last_modified == now,
            final(list).metadata.total_users == final(list).permissions.users@.len(),
            final(list).metadata.total_roles == final(list).permissions.roles@.len(),
            final(list).metadata.modified_by == modified_by,
    {
        list.permissions.add_user(user_id, level);
        list.update_metadata(modified_by, now);
    }

    /// Grants `level` to the role in `list` and records the change.
    pub fn add_role(
        &self,
        list: &mut UserPermissions,
        role_id: u64,
        level: PermissionLevel,
        modified_by: Option<String>,
        now: i64,
    )
        ensures
            final(list).version == old(list).version,
            final(list).permissions.roles@ == old(list).permissions.roles@.insert(role_id, level),
            final(list).permissions.users@ == old(list).permissions.users@,
            final(list).metadata.last_modified == now,
            final(list).metadata.total_users == final(list).permissions.users@.len(),
            final(list).metadata.total_roles == final(list).permissions.roles@.len(),
            final(list).metadata.modified_by == modified_by,
    {
        list.permissions.add_role(role_id, level);
        list.update_metadata(modified_by, now);
    }

    /// Takes the user off `list` and tells whether it was on it. The
    /// change is recorded only where there was one.
    pub fn remove_user(
        &self,
        list: &mut UserPermissions,
        user_id: u64,
        modified_by: Option<String>,
        now: i64,
    ) -> (removed: bool)
        ensures
            removed == old(list).permissions.users@.contains_key(user_id),
            final(list).version == old(list).version,
            final(list).permissions.users@ == old(list).permissions.users@.remove(user_id),
            final(list).permissions.roles@ == old(list).permissions.roles@,
            removed ==> {
                &&& final(list).metadata.last_modified == now
                &&& final(list).metadata.total_users == final(list).permissions.users@.len()
                &&& final(list).metadata.total_roles == final(list).permissions.roles@.len()
                &&& final(list).metadata.modified_by == modified_by
            },
            !removed ==> final(list).metadata == old(list).metadata,
    {
        let removed = list.permissions.remove_user(&user_id);
        if removed {
            list.update_metadata(modified_by, now);
        }
        removed
    }

    /// Takes the role off `list` and tells whether it was on it. The
    /// change is recorded only where there was one.
    pub fn remove_role(
        &self,
        list: &mut UserPermissions,
        role_id: u64,
        modified_by: Option<String>,
        now: i64,
    ) -> (removed: bool)
        ensures
            removed == old(list).permissions.roles@.contains_key(role_id),
            final(list).version == old(list).version,
            final(list).permissions.roles@ == old(list).permissions.roles@.remove(role_id),
            final(list).permissions.users@ == old(list).permissions.users@,
            removed ==> {
                &&& final(list).metadata.last_modified == now
                &&& final(list).metadata.total_users == final(list).permissions.users@.len()
                &&& final(list).metadata.total_roles == final(list).permissions.roles@.len()
                &&& final(list).metadata.modified_by == modified_by
            },
            !removed ==> final(list).metadata == old(list).metadata,
    {
        let removed = list.permissions.remove_role(&role_id);
        if removed {
            list.update_metadata(modified_by, now);
        }
        removed
    }
}

} // verus!
