//! The permission check that gates the commands.

use vstd::prelude::*;
use vstd::string::*;
use crate::permissions::whitelist::{GroupPermissions, PermissionLevel, WhitelistManager};
use crate::permissions::PermissionResult;

verus! {

/// What is known of the roles of the user who asks.
#[derive(Debug)]
pub enum RoleLookup {
    /// The command was given outside any guild: there are no roles.
    NoGuild,
    /// The identifiers of the user's roles in the guild.
    Roles(Vec<u64>),
    /// The roles could not be read.
    Failed(String),
}

/// The highest level that the whitelist grants to any of `roles`, if it
/// grants one to any: of two roles with the same level the earlier counts.
pub open spec fn highest_role_level(granted: Map<u64, PermissionLevel>, roles: Seq<u64>) -> Option<
    PermissionLevel,
>
    decreases roles.len(),
{
    if roles.len() == 0 {
        None
    } else {
        let earlier = highest_role_level(granted, roles.drop_last());
        match granted.get(roles.last()) {
            Some(level) => match earlier {
                Some(best) => if level.spec_rank() > best.spec_rank() {
                    Some(level)
                } else {
                    Some(best)
                },
                None => Some(level),
            },
            None => earlier,
        }
    }
}

/// The level that lets the user pass directly: the one the whitelist
/// grants to the user itself, where it is `required` or higher.
pub open spec fn direct_level(
    granted: Map<u64, PermissionLevel>,
    user_id: u64,
    required: PermissionLevel,
) -> Option<PermissionLevel> {
    match granted.get(user_id) {
        Some(level) => if level.spec_rank() >= required.spec_rank() {
            Some(level)
        } else {
            None
        },
        None => None,
    }
}

/// The message of a check on something that is no command.
pub open spec fn unsupported_interaction_text() -> Seq<char> {
    "Type d'interaction non supporté"@
}

/// The message of a check without a readable whitelist.
pub open spec fn whitelist_error_text(cause: Seq<char>) -> Seq<char> {
    "Erreur chargement whitelist: "@ + cause
}

/// The message of a check without readable roles.
pub open spec fn roles_error_text(cause: Seq<char>) -> Seq<char> {
    "Erreur récupération rôles: "@ + cause
}

/// What the refused user is told.
pub open spec fn denied_text(required: PermissionLevel, held: Option<PermissionLevel>) -> Seq<
    char,
> {
    match held {
        Some(level) => "❌ **Accès refusé**\nVotre niveau: "@ + level.spec_label()
            + "\nNiveau requis: "@ + required.spec_label()
            + "\n\n💡 Contactez un administrateur pour obtenir les permissions nécessaires."@,
        None =>
            "❌ **Accès refusé**\nVous n'êtes pas autorisé à utiliser cette commande.\nNiveau requis: "@
            + required.spec_label()
            + "\n\n💡 Contactez un administrateur pour être ajouté à la whitelist."@,
    }
}

/// Checks permissions for the commands.
#[derive(Debug, Clone)]
pub struct PermissionValidator {
    whitelist_manager: WhitelistManager,
}

impl PermissionValidator {
    /// The manager of the whitelist that the checks go by.
    pub closed spec fn spec_whitelist_manager(&self) -> WhitelistManager {
        self.whitelist_manager
    }

    /// A validator that goes by the whitelist in its usual file.
    pub fn new() -> (validator: PermissionValidator)
        ensures
            validator.spec_whitelist_manager().spec_file_path()
                == crate::permissions::whitelist::whitelist_file(),
    {
        PermissionValidator { whitelist_manager: WhitelistManager::new() }
    }

    /// The level that lets the user pass without a look at its roles, if
    /// there is one.
    pub fn direct_permission(
        &self,
        permissions: &GroupPermissions,
        user_id: u64,
        required_level: PermissionLevel,
    ) -> (level: Option<PermissionLevel>)
        ensures
            level == direct_level(permissions.users@, user_id, required_level),
    {
        match permissions.get_user_level(&user_id) {
            Some(level) => if level.at_least(required_level) {
                Some(level)
            } else {
                None
            },
            None => None,
        }
    }

    /// The highest level that the whitelist grants to any of `roles`.
    pub fn highest_role(&self, permissions: &GroupPermissions, roles: &Vec<u64>) -> (level: Option<
        PermissionLevel,
    >)
        ensures
            level == highest_role_level(permissions.roles@, roles@),
    {
        let mut best: Option<PermissionLevel> = None;
        let mut i: usize = 0;
        while i < roles.len()
            invariant
                i <= roles.len(),
                best == highest_role_level(permissions.roles@, roles@.take(i as int)),
            decreases roles.len() - i,
        {
            proof {
                assert(roles@.take(i as int + 1).drop_last() =~= roles@.take(i as int));
            }
            match permissions.get_role_level(&roles[i]) {
                Some(level) => {
                    best = match best {
                        Some(current) => if level.rank() > current.rank() {
                            Some(level)
                        } else {
                            Some(current)
                        },
                        None => Some(level),
                    };
                },
                None => {},
            }
            i = i + 1;
        }
        proof {
            assert(roles@.take(roles.len() as int) =~= roles@);
        }
        best
    }

    /// Decides whether the user may do what needs `required_level`.
    ///
    /// `actor` is the user who gave the command, none where what came in is
    /// no command. `whitelist` is what is granted, or why it could not be
    /// loaded. The user passes at its own level where that is high enough;
    /// otherwise at the highest level of its roles where that is high
    /// enough; otherwise it does not pass. A whitelist or roles that
    /// could not be read make the check fail, the roles only where they
    /// were needed.
    pub fn validate_interaction_permission(
        &self,
        actor: Option<u64>,
        whitelist: Result<&GroupPermissions, String>,
        roles: &RoleLookup,
        required_level: PermissionLevel,
    ) -> (result: PermissionResult)
        ensures
            match (actor, whitelist) {
                (None, _) => result matches PermissionResult::Error(msg) && msg@
                    == unsupported_interaction_text(),
                (Some(_), Err(cause)) => result matches PermissionResult::Error(msg) && msg@
                    == whitelist_error_text(cause@),
                (Some(user_id), Ok(permissions)) => match direct_level(
                    permissions.users@,
                    user_id,
                    required_level,
                ) {
                    Some(level) => result == PermissionResult::Authorized(level),
                    None => match *roles {
                        RoleLookup::NoGuild => result is Unauthorized,
                        RoleLookup::Failed(cause) => result matches PermissionResult::Error(msg)
                            && msg@ == roles_error_text(cause@),
                        RoleLookup::Roles(list) => match highest_role_level(
                            permissions.roles@,
                            list@,
                        ) {
                            Some(level) => if level.spec_rank() >= required_level.spec_rank() {
                                result == PermissionResult::Authorized(level)
                            } else {
                                result is Unauthorized
                            },
                            None => result is Unauthorized,
                        },
                    },
                },
            },
    {
        let user_id = match actor {
            Some(user_id) => user_id,
            None => {
                return PermissionResult::Error(
                    String::from_str("Type d'interaction non supporté"),
                );
            },
        };
        let permissions = match whitelist {
            Ok(permissions) => permissions,
            Err(cause) => {
                return PermissionResult::Error(
                    String::from_str("Erreur chargement whitelist: ").concat(cause.as_str()),
                );
            },
        };
        match self.direct_permission(permissions, user_id, required_level) {
            Some(level) => {
                return PermissionResult::Authorized(level);
            },
            None => {},
        }
        match roles {
            RoleLookup::NoGuild => PermissionResult::Unauthorized,
            RoleLookup::Failed(cause) => PermissionResult::Error(
                String::from_str("Erreur récupération rôles: ").concat(cause.as_str()),
            ),
            RoleLookup::Roles(list) => match self.highest_role(permissions, list) {
                Some(level) => if level.at_least(required_level) {
                    PermissionResult::Authorized(level)
                } else {
                    PermissionResult::Unauthorized
                },
                None => PermissionResult::Unauthorized,
            },
        }
    }

    /// What the refused user is told: the level it holds, where it holds
    /// one, and the level required.
    pub fn permission_denied_message(
        &self,
        required_level: PermissionLevel,
        user_level: Option<PermissionLevel>,
    ) -> (text: String)
        ensures
            text@ == denied_text(required_level, user_level),
    {
        match user_level {
            Some(level) => {
                let mut text = String::from_str("❌ **Accès refusé**\nVotre niveau: ");
                text.append(level.label());
                text.append("\nNiveau requis: ");
                text.append(required_level.label());
                text.append(
                    "\n\n💡 Contactez un administrateur pour obtenir les permissions nécessaires.",
                );
                text
            },
            None => {
                let mut text = String::from_str(
                    "❌ **Accès refusé**\nVous n'êtes pas autorisé à utiliser cette commande.\nNiveau requis: ",
                );
                text.append(required_level.label());
                text.append(
                    "\n\n💡 Contactez un administrateur pour être ajouté à la whitelist.",
                );
                text
            },
        }
    }

    /// The manager of the whitelist that the checks go by.
    pub fn whitelist_manager(&self) -> (manager: &WhitelistManager)
        ensures
            *manager == self.spec_whitelist_manager(),
    {
        &self.whitelist_manager
    }
}

/// The level that the whitelist grants to the roles of a user is the
/// level of one of those roles, and no role of the user has a higher one.
pub proof fn law_highest_role_is_maximal(granted: Map<u64, PermissionLevel>, roles: Seq<u64>)
    ensures
        match highest_role_level(granted, roles) {
            Some(best) => {
                &&& exists|i: int|
                    0 <= i < roles.len() && #[trigger] granted.get(roles[i]) == Some(best)
                &&& forall|i: int|
                    0 <= i < roles.len() ==> (#[trigger] granted.get(roles[i]) matches Some(level)
                        ==> level.spec_rank() <= best.spec_rank())
            },
            None => forall|i: int| 0 <= i < roles.len() ==> #[trigger] granted.get(roles[i]) is None,
        },
    decreases roles.len(),
{
    if roles.len() > 0 {
        let earlier = roles.drop_last();
        law_highest_role_is_maximal(granted, earlier);
        assert(forall|i: int| 0 <= i < earlier.len() ==> earlier[i] == roles[i]);
    }
}

} // verus!
