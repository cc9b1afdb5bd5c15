//! Slash commands: which command was given, who may give it, and what is
//! answered.

use vstd::prelude::*;
use vstd::string::*;
use crate::bot::cycle::{CyclePolicy, CycleRun, CycleRunView};
use crate::config::settings::BotConfig;
use crate::error::BotError;
use crate::scheduler::execute_manual_kick;
use crate::permissions::validator::{
    denied_text, highest_role_level, PermissionValidator, RoleLookup,
};
use crate::permissions::whitelist::{GroupPermissions, PermissionLevel, UserPermissions};
use crate::permissions::PermissionResult;
use crate::utils::{decimal_string, decimal_text, format_timestamp, text_equals, timestamp_text};

verus! {

/// The version shown in the status.
pub const SHOWN_VERSION: &'static str = "1.1.0";

/// An answer to an interaction.
#[derive(Debug, Clone)]
pub struct Reply {
    /// What is said.
    pub content: String,
    /// Whether only the user who asked sees it.
    pub ephemeral: bool,
}

/// A slash command.
#[derive(Debug, Clone, Copy, PartialEq, Eq, Structural)]
pub enum SlashCommand {
    /// Show the state of the bot.
    Status,
    /// Disconnect everybody from the monitored channel.
    Kick,
    /// Manage the whitelist.
    Permissions,
    /// No command of this bot.
    Unknown,
}

/// A part of the permissions command.
#[derive(Debug, Clone, Copy, PartialEq, Eq, Structural)]
pub enum PermissionsSubcommand {
    List,
    AddUser,
    AddRole,
    RemoveUser,
    RemoveRole,
    Check,
    /// No part of the permissions command.
    Unknown,
}

/// The value of an option of a command.
#[derive(Debug, Clone)]
pub enum CommandOption {
    /// A user, by identifier.
    User(u64),
    /// A role, by identifier.
    Role(u64),
    /// A text.
    Text(String),
    /// Any other value.
    Other,
}

/// The command with this name.
pub open spec fn command_named(name: Seq<char>) -> SlashCommand {
    if name == "status"@ {
        SlashCommand::Status
    } else if name == "kick"@ {
        SlashCommand::Kick
    } else if name == "permissions"@ {
        SlashCommand::Permissions
    } else {
        SlashCommand::Unknown
    }
}

/// The part of the permissions command with this name.
pub open spec fn subcommand_named(name: Seq<char>) -> PermissionsSubcommand {
    if name == "list"@ {
        PermissionsSubcommand::List
    } else if name == "add-user"@ {
        PermissionsSubcommand::AddUser
    } else if name == "add-role"@ {
        PermissionsSubcommand::AddRole
    } else if name == "remove-user"@ {
        PermissionsSubcommand::RemoveUser
    } else if name == "remove-role"@ {
        PermissionsSubcommand::RemoveRole
    } else if name == "check"@ {
        PermissionsSubcommand::Check
    } else {
        PermissionsSubcommand::Unknown
    }
}

/// The level with this name.
pub open spec fn level_named(name: Seq<char>) -> Option<PermissionLevel> {
    if name == "User"@ {
        Some(PermissionLevel::User)
    } else if name == "Moderator"@ {
        Some(PermissionLevel::Moderator)
    } else if name == "Admin"@ {
        Some(PermissionLevel::Admin)
    } else {
        None
    }
}

/// The level that a command asks of the user: anybody on the whitelist may
/// ask for the status, a moderator may disconnect, an administrator may
/// manage permissions. A command that is none asks for nothing.
pub open spec fn level_required(command: SlashCommand) -> Option<PermissionLevel> {
    match command {
        SlashCommand::Status => Some(PermissionLevel::User),
        SlashCommand::Kick => Some(PermissionLevel::Moderator),
        SlashCommand::Permissions => Some(PermissionLevel::Admin),
        SlashCommand::Unknown => None,
    }
}

/// Tells which command the name stands for.
pub fn handle_slash_command(command_name: &str) -> (command: SlashCommand)
    ensures
        command == command_named(command_name@),
{
    if text_equals(command_name, "status") {
        SlashCommand::Status
    } else if text_equals(command_name, "kick") {
        SlashCommand::Kick
    } else if text_equals(command_name, "permissions") {
        SlashCommand::Permissions
    } else {
        SlashCommand::Unknown
    }
}

/// The level that a command asks of the user.
pub fn required_level(command: SlashCommand) -> (level: Option<PermissionLevel>)
    ensures
        level == level_required(command),
{
    match command {
        SlashCommand::Status => Some(PermissionLevel::User),
        SlashCommand::Kick => Some(PermissionLevel::Moderator),
        SlashCommand::Permissions => Some(PermissionLevel::Admin),
        SlashCommand::Unknown => None,
    }
}

/// Tells which part of the permissions command the name stands for.
pub fn handle_permissions_command(subcommand_name: &str) -> (subcommand: PermissionsSubcommand)
    ensures
        subcommand == subcommand_named(subcommand_name@),
{
    if text_equals(subcommand_name, "list") {
        PermissionsSubcommand::List
    } else if text_equals(subcommand_name, "add-user") {
        PermissionsSubcommand::AddUser
    } else if text_equals(subcommand_name, "add-role") {
        PermissionsSubcommand::AddRole
    } else if text_equals(subcommand_name, "remove-user") {
        PermissionsSubcommand::RemoveUser
    } else if text_equals(subcommand_name, "remove-role") {
        PermissionsSubcommand::RemoveRole
    } else if text_equals(subcommand_name, "check") {
        PermissionsSubcommand::Check
    } else {
        PermissionsSubcommand::Unknown
    }
}

/// Reads a permission level from its name.
pub fn parse_permission_level(level_str: &str) -> (level: Option<PermissionLevel>)
    ensures
        level == level_named(level_str@),
{
    if text_equals(level_str, "User") {
        Some(PermissionLevel::User)
    } else if text_equals(level_str, "Moderator") {
        Some(PermissionLevel::Moderator)
    } else if text_equals(level_str, "Admin") {
        Some(PermissionLevel::Admin)
    } else {
        None
    }
}

/// The reply to a check that could not be made.
pub open spec fn permission_error_text(cause: Seq<char>) -> Seq<char> {
    "Erreur de permission: "@ + cause
}

/// Turns the outcome of a permission check into the level to go on with,
/// or into what the refused user is told.
pub fn check_permission(
    permission_validator: &PermissionValidator,
    outcome: PermissionResult,
    required_level: PermissionLevel,
) -> (r: Result<PermissionLevel, String>)
    ensures
        match outcome {
            PermissionResult::Authorized(level) => r == Ok::<PermissionLevel, String>(level),
            PermissionResult::Unauthorized => r matches Err(msg) && msg@ == denied_text(
                required_level,
                None,
            ),
            PermissionResult::Error(cause) => r matches Err(msg) && msg@
                == permission_error_text(cause@),
        },
{
    match outcome {
        PermissionResult::Authorized(level) => Ok(level),
        PermissionResult::Unauthorized => Err(
            permission_validator.permission_denied_message(required_level, None),
        ),
        PermissionResult::Error(cause) => Err(
            String::from_str("Erreur de permission: ").concat(cause.as_str()),
        ),
    }
}

/// Decides on the kick command. A user whom the permission check let pass
/// as a moderator or higher gets the cycle that disconnects whoever is in
/// the monitored channel. Any other user, and any user for whom the check
/// could not be made, gets no cycle, so nothing is read and nobody is
/// disconnected, and a permission error with what to tell the user.
pub fn handle_kick_command(
    permission_validator: &PermissionValidator,
    outcome: PermissionResult,
    config: &BotConfig,
) -> (r: Result<CycleRun, BotError>)
    ensures
        r is Ok <==> (outcome matches PermissionResult::Authorized(level) && level.spec_rank()
            >= PermissionLevel::Moderator.spec_rank()),
        r matches Ok(run) ==> run@ == CycleRunView::initial(CyclePolicy::manual_of(*config))
            && run@.well_formed(),
        r matches Err(e) ==> e matches BotError::PermissionError(msg) && match outcome {
            PermissionResult::Authorized(level) => msg@ == denied_text(
                PermissionLevel::Moderator,
                Some(level),
            ),
            PermissionResult::Unauthorized => msg@ == denied_text(
                PermissionLevel::Moderator,
                None,
            ),
            PermissionResult::Error(cause) => msg@ == permission_error_text(cause@),
        },
{
    match check_permission(permission_validator, outcome, PermissionLevel::Moderator) {
        Ok(level) => {
            if level.at_least(PermissionLevel::Moderator) {
                Ok(execute_manual_kick(config))
            } else {
                Err(
                    BotError::PermissionError(
                        permission_validator.permission_denied_message(
                            PermissionLevel::Moderator,
                            Some(level),
                        ),
                    ),
                )
            }
        },
        Err(msg) => Err(BotError::PermissionError(msg)),
    }
}

/// A channel as it is written in a message, or the word for none.
pub open spec fn channel_or_none(channel_id: Option<u64>) -> Seq<char> {
    match channel_id {
        Some(id) => "<#"@ + decimal_text(id as nat) + ">"@,
        None => "Aucun"@,
    }
}

/// Whether the bot only warns, in words.
pub open spec fn yes_or_no(flag: bool) -> Seq<char> {
    if flag {
        "✅ Oui"@
    } else {
        "❌ Non"@
    }
}

/// The status of a bot with these settings.
pub open spec fn status_text(config: Option<BotConfig>) -> Seq<char> {
    match config {
        Some(c) => "🤖 **LeKickerFou v"@ + SHOWN_VERSION@
            + "** - Bot actif\n\n🔊 **Salon surveillé:** <#"@ + decimal_text(
            c.voice_channel_id as nat,
        ) + ">\n📝 **Salon de log:** "@ + channel_or_none(c.log_channel_id)
            + "\n⚠️ **Salon d'avertissement:** "@ + channel_or_none(c.warning_channel_id)
            + "\n⏰ **Planning:** `"@ + c.cron_schedule@ + "`\n💌 **Mode avertissement seul:** "@
            + yes_or_no(c.warning_only) + "\n⏱️ **Délai d'avertissement:** "@ + decimal_text(
            c.warning_delay_seconds as nat,
        ) + " secondes\n\n🟢 **Bot opérationnel**"@,
        None => "🤖 **LeKickerFou v"@ + SHOWN_VERSION@
            + "** - Bot actif\n\n❌ **Aucune configuration trouvée**\n🟢 **Bot opérationnel mais non configuré**"@,
    }
}

/// Writes a channel as it stands in a message, or the word for none.
pub fn channel_mention(channel_id: Option<u64>) -> (text: String)
    ensures
        text@ == channel_or_none(channel_id),
{
    match channel_id {
        Some(id) => String::from_str("<#").concat(decimal_string(id).as_str()).concat(">"),
        None => String::from_str("Aucun"),
    }
}

/// The answer to the status command: the settings in words, or the note
/// that there are none.
pub fn handle_status_command(config: Option<&BotConfig>) -> (reply: Reply)
    ensures
        !reply.ephemeral,
        reply.content@ == status_text(
            match config {
                Some(c) => Some(*c),
                None => None,
            },
        ),
{
    let mut text = String::from_str("🤖 **LeKickerFou v");
    text.append(SHOWN_VERSION);
    match config {
        Some(c) => {
            text.append("** - Bot actif\n\n🔊 **Salon surveillé:** <#");
            text.append(decimal_string(c.voice_channel_id).as_str());
            text.append(">\n📝 **Salon de log:** ");
            text.append(channel_mention(c.log_channel_id).as_str());
            text.append("\n⚠️ **Salon d'avertissement:** ");
            text.append(channel_mention(c.warning_channel_id).as_str());
            text.append("\n⏰ **Planning:** `");
            text.append(c.cron_schedule.as_str());
            text.append("`\n💌 **Mode avertissement seul:** ");
            text.append(if c.warning_only {
                "✅ Oui"
            } else {
                "❌ Non"
            });
            text.append("\n⏱️ **Délai d'avertissement:** ");
            text.append(decimal_string(c.warning_delay_seconds).as_str());
            text.append(" secondes\n\n🟢 **Bot opérationnel**");
        },
        None => {
            text.append(
                "** - Bot actif\n\n❌ **Aucune configuration trouvée**\n🟢 **Bot opérationnel mais non configuré**",
            );
        },
    }
    Reply { content: text, ephemeral: false }
}

/// What came of a manual disconnection.
#[derive(Debug)]
pub enum KickOutcome {
    /// The settings could not be loaded.
    ConfigurationError(String),
    /// The cycle ended with this many users disconnected.
    Disconnected(usize),
    /// The cycle could not be run.
    Failed(String),
}

/// The first answer to the kick command, given before anything is done.
pub open spec fn kick_progress_text() -> Seq<char> {
    "⏳ **Déconnexion en cours...**\nRecherche des utilisateurs connectés..."@
}

/// The final answer to the kick command.
pub open spec fn kick_result_text(outcome: KickOutcome, channel_id: u64) -> Seq<char> {
    match outcome {
        KickOutcome::ConfigurationError(cause) => "❌ **Erreur de configuration**\n"@ + cause@,
        KickOutcome::Disconnected(count) => if count == 0 {
            "✅ **Déconnexion terminée**\nAucun utilisateur n'était connecté au salon surveillé."@
        } else {
            "✅ **Déconnexion réussie**\n"@ + decimal_text(count as nat)
                + " utilisateur(s) déconnecté(s) du salon <#"@ + decimal_text(channel_id as nat)
                + ">."@
        },
        KickOutcome::Failed(cause) => "❌ **Erreur lors de la déconnexion**\n"@ + cause@,
    }
}

/// The first answer to the kick command, given before anything is done.
pub fn kick_progress() -> (reply: Reply)
    ensures
        !reply.ephemeral,
        reply.content@ == kick_progress_text(),
{
    Reply {
        content: String::from_str(
            "⏳ **Déconnexion en cours...**\nRecherche des utilisateurs connectés...",
        ),
        ephemeral: false,
    }
}

/// The final answer to the kick command: what came of the disconnection
/// from the channel `channel_id`.
pub fn kick_reply(outcome: &KickOutcome, channel_id: u64) -> (text: String)
    ensures
        text@ == kick_result_text(*outcome, channel_id),
{
    match outcome {
        KickOutcome::ConfigurationError(cause) => String::from_str(
            "❌ **Erreur de configuration**\n",
        ).concat(cause.as_str()),
        KickOutcome::Disconnected(count) => {
            if *count == 0 {
                String::from_str(
                    "✅ **Déconnexion terminée**\nAucun utilisateur n'était connecté au salon surveillé.",
                )
            } else {
                let mut text = String::from_str("✅ **Déconnexion réussie**\n");
                text.append(decimal_string(*count as u64).as_str());
                text.append(" utilisateur(s) déconnecté(s) du salon <#");
                text.append(decimal_string(channel_id).as_str());
                text.append(">.");
                text
            }
        },
        KickOutcome::Failed(cause) => String::from_str(
            "❌ **Erreur lors de la déconnexion**\n",
        ).concat(cause.as_str()),
    }
}

/// The options of a part of the permissions command; none where the part
/// has no list of options.
pub fn get_subcommand_options(options: Option<&Vec<CommandOption>>) -> (r: Result<
    &Vec<CommandOption>,
    String,
>)
    ensures
        match options {
            Some(list) => r == Ok::<&Vec<CommandOption>, String>(list),
            None => r matches Err(msg) && msg@ == "Format de sous-commande invalide"@,
        },
{
    match options {
        Some(list) => Ok(list),
        None => Err(String::from_str("Format de sous-commande invalide")),
    }
}

/// The name under which a user is shown: the one fetched, or the word for
/// a user and the identifier where none could be fetched.
pub open spec fn shown_user_name(fetched: Option<String>, user_id: u64) -> Seq<char> {
    match fetched {
        Some(name) => name@,
        None => "Utilisateur "@ + decimal_text(user_id as nat),
    }
}

/// The name under which a user is shown.
pub fn user_display_name(fetched: Option<String>, user_id: u64) -> (name: String)
    ensures
        name@ == shown_user_name(fetched, user_id),
{
    match fetched {
        Some(name) => name,
        None => String::from_str("Utilisateur ").concat(decimal_string(user_id).as_str()),
    }
}

/// A reply that only the user who asked sees.
pub fn private_reply(text: &str) -> (reply: Reply)
    ensures
        reply.ephemeral,
        reply.content@ == text@,
{
    Reply { content: String::from_str(text), ephemeral: true }
}

/// Reads the user and the level to grant from the options of the command.
/// The first option must be a user, the second a text that names a level;
/// otherwise what the user is told comes back.
pub fn handle_permissions_add_user(options: &Vec<CommandOption>) -> (r: Result<
    (u64, PermissionLevel),
    Reply,
>)
    requires
        options@.len() >= 2,
    ensures
        match (options@[0], options@[1]) {
            (CommandOption::User(id), CommandOption::Text(name)) => match level_named(name@) {
                Some(level) => r == Ok::<(u64, PermissionLevel), Reply>((id, level)),
                None => r matches Err(reply) && reply.ephemeral && reply.content@
                    == "❌ **Erreur:** Niveau de permission invalide"@,
            },
            (CommandOption::User(_), _) => r matches Err(reply) && reply.ephemeral
                && reply.content@ == "❌ **Erreur:** Niveau invalide"@,
            _ => r matches Err(reply) && reply.ephemeral && reply.content@
                == "❌ **Erreur:** Utilisateur invalide"@,
        },
{
    let user_id = match &options[0] {
        CommandOption::User(id) => *id,
        _ => {
            return Err(private_reply("❌ **Erreur:** Utilisateur invalide"));
        },
    };
    let level_name = match &options[1] {
        CommandOption::Text(name) => name,
        _ => {
            return Err(private_reply("❌ **Erreur:** Niveau invalide"));
        },
    };
    match parse_permission_level(level_name.as_str()) {
        Some(level) => Ok((user_id, level)),
        None => Err(private_reply("❌ **Erreur:** Niveau de permission invalide")),
    }
}

/// Reads the role and the level to grant from the options of the command.
/// The first option must be a role, the second a text that names a level;
/// otherwise what the user is told comes back.
pub fn handle_permissions_add_role(options: &Vec<CommandOption>) -> (r: Result<
    (u64, PermissionLevel),
    Reply,
>)
    requires
        options@.len() >= 2,
    ensures
        match (options@[0], options@[1]) {
            (CommandOption::Role(id), CommandOption::Text(name)) => match level_named(name@) {
                Some(level) => r == Ok::<(u64, PermissionLevel), Reply>((id, level)),
                None => r matches Err(reply) && reply.ephemeral && reply.content@
                    == "❌ **Erreur:** Niveau de permission invalide"@,
            },
            (CommandOption::Role(_), _) => r matches Err(reply) && reply.ephemeral
                && reply.content@ == "❌ **Erreur:** Niveau invalide"@,
            _ => r matches Err(reply) && reply.ephemeral && reply.content@
                == "❌ **Erreur:** Rôle invalide"@,
        },
{
    let role_id = match &options[0] {
        CommandOption::Role(id) => *id,
        _ => {
            return Err(private_reply("❌ **Erreur:** Rôle invalide"));
        },
    };
    let level_name = match &options[1] {
        CommandOption::Text(name) => name,
        _ => {
            return Err(private_reply("❌ **Erreur:** Niveau invalide"));
        },
    };
    match parse_permission_level(level_name.as_str()) {
        Some(level) => Ok((role_id, level)),
        None => Err(private_reply("❌ **Erreur:** Niveau de permission invalide")),
    }
}

/// Reads the user to take off the whitelist, or to check, from the
/// options of the command: the first option must be a user.
pub fn handle_permissions_remove_user(options: &Vec<CommandOption>) -> (r: Result<u64, Reply>)
    requires
        options@.len() >= 1,
    ensures
        match options@[0] {
            CommandOption::User(id) => r == Ok::<u64, Reply>(id),
            _ => r matches Err(reply) && reply.ephemeral && reply.content@
                == "❌ **Erreur:** Utilisateur invalide"@,
        },
{
    match &options[0] {
        CommandOption::User(id) => Ok(*id),
        _ => Err(private_reply("❌ **Erreur:** Utilisateur invalide")),
    }
}

/// Reads the role to take off the whitelist from the options of the
/// command: the first option must be a role.
pub fn handle_permissions_remove_role(options: &Vec<CommandOption>) -> (r: Result<u64, Reply>)
    requires
        options@.len() >= 1,
    ensures
        match options@[0] {
            CommandOption::Role(id) => r == Ok::<u64, Reply>(id),
            _ => r matches Err(reply) && reply.ephemeral && reply.content@
                == "❌ **Erreur:** Rôle invalide"@,
        },
{
    match &options[0] {
        CommandOption::Role(id) => Ok(*id),
        _ => Err(private_reply("❌ **Erreur:** Rôle invalide")),
    }
}

/// Reads the user to check from the options of the command: the first
/// option must be a user.
pub fn handle_permissions_check(options: &Vec<CommandOption>) -> (r: Result<u64, Reply>)
    requires
        options@.len() >= 1,
    ensures
        match options@[0] {
            CommandOption::User(id) => r == Ok::<u64, Reply>(id),
            _ => r matches Err(reply) && reply.ephemeral && reply.content@
                == "❌ **Erreur:** Utilisateur invalide"@,
        },
{
    handle_permissions_remove_user(options)
}

/// A role as it is written in a message.
pub open spec fn role_mention(role_id: u64) -> Seq<char> {
    "<@&"@ + decimal_text(role_id as nat) + ">"@
}

/// What is answered when a user was granted a level, or could not be.
pub open spec fn add_user_text(
    user_name: Seq<char>,
    level: PermissionLevel,
    actor_tag: Seq<char>,
    outcome: Result<(), String>,
) -> Seq<char> {
    match outcome {
        Ok(_) => "✅ **Utilisateur ajouté**\n👤 **Utilisateur:** "@ + user_name
            + "\n🔑 **Niveau:** "@ + level.spec_label() + "\n👨‍💻 **Ajouté par:** "@ + actor_tag,
        Err(cause) => "❌ **Erreur lors de l'ajout**\n"@ + cause@,
    }
}

/// What is answered when a role was granted a level, or could not be.
pub open spec fn add_role_text(
    role_id: u64,
    level: PermissionLevel,
    actor_tag: Seq<char>,
    outcome: Result<(), String>,
) -> Seq<char> {
    match outcome {
        Ok(_) => "✅ **Rôle ajouté**\n🏷️ **Rôle:** "@ + role_mention(role_id)
            + "\n🔑 **Niveau:** "@ + level.spec_label() + "\n👨‍💻 **Ajouté par:** "@ + actor_tag,
        Err(cause) => "❌ **Erreur lors de l'ajout**\n"@ + cause@,
    }
}

/// What is answered when a user was taken off the whitelist, was not on
/// it, or could not be taken off.
pub open spec fn remove_user_text(
    user_name: Seq<char>,
    actor_tag: Seq<char>,
    outcome: Result<bool, String>,
) -> Seq<char> {
    match outcome {
        Ok(removed) => if removed {
            "✅ **Utilisateur supprimé**\n👤 **Utilisateur:** "@ + user_name
                + "\n👨‍💻 **Supprimé par:** "@ + actor_tag
        } else {
            "⚠️ **Utilisateur non trouvé**\n"@ + user_name + " n'était pas dans la whitelist."@
        },
        Err(cause) => "❌ **Erreur lors de la suppression**\n"@ + cause@,
    }
}

/// What is answered when a role was taken off the whitelist, was not on
/// it, or could not be taken off.
pub open spec fn remove_role_text(
    role_id: u64,
    actor_tag: Seq<char>,
    outcome: Result<bool, String>,
) -> Seq<char> {
    match outcome {
        Ok(removed) => if removed {
            "✅ **Rôle supprimé**\n🏷️ **Rôle:** "@ + role_mention(role_id)
                + "\n👨‍💻 **Supprimé par:** "@ + actor_tag
        } else {
            "⚠️ **Rôle non trouvé**\n"@ + role_mention(role_id)
                + " n'était pas dans la whitelist."@
        },
        Err(cause) => "❌ **Erreur lors de la suppression**\n"@ + cause@,
    }
}

/// Writes a role as it stands in a message.
pub fn role_mention_text(role_id: u64) -> (text: String)
    ensures
        text@ == role_mention(role_id),
{
    String::from_str("<@&").concat(decimal_string(role_id).as_str()).concat(">")
}

/// The answer after a user was granted `level`: to everybody where it
/// succeeded, to the user who asked alone where it failed.
pub fn add_user_reply(
    user_name: &str,
    level: PermissionLevel,
    actor_tag: &str,
    outcome: &Result<(), String>,
) -> (reply: Reply)
    ensures
        reply.ephemeral == (*outcome is Err),
        reply.content@ == add_user_text(user_name@, level, actor_tag@, *outcome),
{
    match outcome {
        Ok(_) => {
            let mut text = String::from_str("✅ **Utilisateur ajouté**\n👤 **Utilisateur:** ");
            text.append(user_name);
            text.append("\n🔑 **Niveau:** ");
            text.append(level.label());
            text.append("\n👨‍💻 **Ajouté par:** ");
            text.append(actor_tag);
            Reply { content: text, ephemeral: false }
        },
        Err(cause) => Reply {
            content: String::from_str("❌ **Erreur lors de l'ajout**\n").concat(cause.as_str()),
            ephemeral: true,
        },
    }
}

/// The answer after a role was granted `level`: to everybody where it
/// succeeded, to the user who asked alone where it failed.
pub fn add_role_reply(
    role_id: u64,
    level: PermissionLevel,
    actor_tag: &str,
    outcome: &Result<(), String>,
) -> (reply: Reply)
    ensures
        reply.ephemeral == (*outcome is Err),
        reply.content@ == add_role_text(role_id, level, actor_tag@, *outcome),
{
    match outcome {
        Ok(_) => {
            let mut text = String::from_str("✅ **Rôle ajouté**\n🏷️ **Rôle:** ");
            text.append(role_mention_text(role_id).as_str());
            text.append("\n🔑 **Niveau:** ");
            text.append(level.label());
            text.append("\n👨‍💻 **Ajouté par:** ");
            text.append(actor_tag);
            Reply { content: text, ephemeral: false }
        },
        Err(cause) => Reply {
            content: String::from_str("❌ **Erreur lors de l'ajout**\n").concat(cause.as_str()),
            ephemeral: true,
        },
    }
}

/// The answer after a user was to be taken off the whitelist: to
/// everybody where it was taken off, to the user who asked alone otherwise.
pub fn remove_user_reply(user_name: &str, actor_tag: &str, outcome: &Result<bool, String>) -> (reply:
    Reply)
    ensures
        reply.ephemeral == !(*outcome matches Ok(removed) && removed),
        reply.content@ == remove_user_text(user_name@, actor_tag@, *outcome),
{
    match outcome {
        Ok(removed) => {
            if *removed {
                let mut text = String::from_str(
                    "✅ **Utilisateur supprimé**\n👤 **Utilisateur:** ",
                );
                text.append(user_name);
                text.append("\n👨‍💻 **Supprimé par:** ");
                text.append(actor_tag);
                Reply { content: text, ephemeral: false }
            } else {
                let mut text = String::from_str("⚠️ **Utilisateur non trouvé**\n");
                text.append(user_name);
                text.append(" n'était pas dans la whitelist.");
                Reply { content: text, ephemeral: true }
            }
        },
        Err(cause) => Reply {
            content: String::from_str("❌ **Erreur lors de la suppression**\n").concat(
                cause.as_str(),
            ),
            ephemeral: true,
        },
    }
}

/// The answer after a role was to be taken off the whitelist: to
/// everybody where it was taken off, to the user who asked alone otherwise.
pub fn remove_role_reply(role_id: u64, actor_tag: &str, outcome: &Result<bool, String>) -> (reply:
    Reply)
    ensures
        reply.ephemeral == !(*outcome matches Ok(removed) && removed),
        reply.content@ == remove_role_text(role_id, actor_tag@, *outcome),
{
    match outcome {
        Ok(removed) => {
            if *removed {
                let mut text = String::from_str("✅ **Rôle supprimé**\n🏷️ **Rôle:** ");
                text.append(role_mention_text(role_id).as_str());
                text.append("\n👨‍💻 **Supprimé par:** ");
                text.append(actor_tag);
                Reply { content: text, ephemeral: false }
            } else {
                let mut text = String::from_str("⚠️ **Rôle non trouvé**\n");
                text.append(role_mention_text(role_id).as_str());
                text.append(" n'était pas dans la whitelist.");
                Reply { content: text, ephemeral: true }
            }
        },
        Err(cause) => Reply {
            content: String::from_str("❌ **Erreur lors de la suppression**\n").concat(
                cause.as_str(),
            ),
            ephemeral: true,
        },
    }
}

/// One line per entry among the first `n` of `entries`: the user and its
/// level.
pub open spec fn user_entry_lines(entries: Seq<(u64, PermissionLevel)>, n: int) -> Seq<char>
    decreases n,
{
    if n <= 0 {
        Seq::empty()
    } else {
        user_entry_lines(entries, n - 1) + "• <@"@ + decimal_text(entries[n - 1].0 as nat)
            + "> → "@ + entries[n - 1].1.spec_label() + "\n"@
    }
}

/// One line per entry among the first `n` of `entries`: the role and its
/// level.
pub open spec fn role_entry_lines(entries: Seq<(u64, PermissionLevel)>, n: int) -> Seq<char>
    decreases n,
{
    if n <= 0 {
        Seq::empty()
    } else {
        role_entry_lines(entries, n - 1) + "• "@ + role_mention(entries[n - 1].0) + " → "@
            + entries[n - 1].1.spec_label() + "\n"@
    }
}

/// The figures of the whitelist, in words.
pub open spec fn figures_text(list: UserPermissions) -> Seq<char> {
    "📋 **Permissions LeKickerFou**\n\n📊 **Statistiques:**\n• Version: "@ + list.version@
        + "\n• Utilisateurs: "@ + decimal_text(list.metadata.total_users as nat)
        + "\n• Rôles: "@ + decimal_text(list.metadata.total_roles as nat)
        + "\n• Dernière modification: "@ + timestamp_text(list.metadata.last_modified) + "\n"@
}

/// Who changed the whitelist last, in words; nothing where that is not known.
pub open spec fn modified_by_text(modified_by: Option<String>) -> Seq<char> {
    match modified_by {
        Some(who) => "• Modifié par: "@ + who@ + "\n"@,
        None => Seq::empty(),
    }
}

/// The users of the whitelist, in words.
pub open spec fn users_section(users: Seq<(u64, PermissionLevel)>) -> Seq<char> {
    if users.len() > 0 {
        "\n👥 **Utilisateurs autorisés:**\n"@ + user_entry_lines(users, users.len() as int)
    } else {
        "\n👥 **Utilisateurs:** Aucun\n"@
    }
}

/// The roles of the whitelist, in words.
pub open spec fn roles_section(roles: Seq<(u64, PermissionLevel)>) -> Seq<char> {
    if roles.len() > 0 {
        "\n🏷️ **Rôles autorisés:**\n"@ + role_entry_lines(roles, roles.len() as int)
    } else {
        "\n🏷️ **Rôles:** Aucun\n"@
    }
}

/// The whitelist in words: its figures, then the users and the roles in
/// the order given, then what the levels mean.
pub open spec fn permissions_list_text(
    list: UserPermissions,
    users: Seq<(u64, PermissionLevel)>,
    roles: Seq<(u64, PermissionLevel)>,
) -> Seq<char> {
    figures_text(list) + modified_by_text(list.metadata.modified_by) + users_section(users)
        + roles_section(roles)
        + "\n💡 **Niveaux de permission:**\n• 👤 User: Commandes de consultation\n• 🛡️ Moderator: + Déconnexions manuelles\n• 👑 Admin: + Gestion des permissions"@
}

/// Writes the figures of the whitelist.
pub fn figures(list: &UserPermissions) -> (text: String)
    ensures
        text@ == figures_text(*list),
{
    let mut text = String::from_str(
        "📋 **Permissions LeKickerFou**\n\n📊 **Statistiques:**\n• Version: ",
    );
    text.append(list.version.as_str());
    text.append("\n• Utilisateurs: ");
    text.append(decimal_string(list.metadata.total_users as u64).as_str());
    text.append("\n• Rôles: ");
    text.append(decimal_string(list.metadata.total_roles as u64).as_str());
    text.append("\n• Dernière modification: ");
    text.append(format_timestamp(list.metadata.last_modified).as_str());
    text.append("\n");
    text
}

/// Writes who changed the whitelist last.
pub fn modified_by_line(modified_by: &Option<String>) -> (text: String)
    ensures
        text@ == modified_by_text(*modified_by),
{
    match modified_by {
        Some(who) => String::from_str("• Modifié par: ").concat(who.as_str()).concat("\n"),
        None => String::new(),
    }
}

/// Writes one line per entry: the user and its level.
pub fn user_entries(users: &Vec<(u64, PermissionLevel)>) -> (text: String)
    ensures
        text@ == user_entry_lines(users@, users@.len() as int),
{
    let mut text = String::new();
    let mut i: usize = 0;
    while i < users.len()
        invariant
            i <= users.len(),
            text@ == user_entry_lines(users@, i as int),
        decreases users.len() - i,
    {
        text.append("• <@");
        text.append(decimal_string(users[i].0).as_str());
        text.append("> → ");
        text.append(users[i].1.label());
        text.append("\n");
        i = i + 1;
    }
    text
}

/// Writes one line per entry: the role and its level.
pub fn role_entries(roles: &Vec<(u64, PermissionLevel)>) -> (text: String)
    ensures
        text@ == role_entry_lines(roles@, roles@.len() as int),
{
    let mut text = String::new();
    let mut i: usize = 0;
    while i < roles.len()
        invariant
            i <= roles.len(),
            text@ == role_entry_lines(roles@, i as int),
        decreases roles.len() - i,
    {
        text.append("• ");
        text.append(role_mention_text(roles[i].0).as_str());
        text.append(" → ");
        text.append(roles[i].1.label());
        text.append("\n");
        i = i + 1;
    }
    text
}

/// The answer to the list command: the whitelist in words, with the users
/// and roles in the order in which `users` and `roles` give them.
pub fn handle_permissions_list(
    list: &UserPermissions,
    users: &Vec<(u64, PermissionLevel)>,
    roles: &Vec<(u64, PermissionLevel)>,
) -> (reply: Reply)
    ensures
        reply.ephemeral,
        reply.content@ == permissions_list_text(*list, users@, roles@),
{
    let mut text = figures(list);
    text.append(modified_by_line(&list.metadata.modified_by).as_str());
    if users.len() > 0 {
        text.append(
            String::from_str("\n👥 **Utilisateurs autorisés:**\n").concat(
                user_entries(users).as_str(),
            ).as_str(),
        );
    } else {
        text.append("\n👥 **Utilisateurs:** Aucun\n");
    }
    if roles.len() > 0 {
        text.append(
            String::from_str("\n🏷️ **Rôles autorisés:**\n").concat(
                role_entries(roles).as_str(),
            ).as_str(),
        );
    } else {
        text.append("\n🏷️ **Rôles:** Aucun\n");
    }
    text.append(
        "\n💡 **Niveaux de permission:**\n• 👤 User: Commandes de consultation\n• 🛡️ Moderator: + Déconnexions manuelles\n• 👑 Admin: + Gestion des permissions",
    );
    Reply { content: text, ephemeral: true }
}

/// The lines of those among the first `n` of `roles` that the whitelist
/// grants a level: the role and its level, a line break between two lines.
pub open spec fn granted_role_lines(granted: Map<u64, PermissionLevel>, roles: Seq<u64>, n: int) -> Seq<
    char,
>
    decreases n,
{
    if n <= 0 {
        Seq::empty()
    } else {
        let earlier = granted_role_lines(granted, roles, n - 1);
        match granted.get(roles[n - 1]) {
            Some(level) => (if earlier.len() > 0 {
                earlier + "\n"@
            } else {
                earlier
            }) + role_mention(roles[n - 1]) + " → "@ + level.spec_label(),
            None => earlier,
        }
    }
}

/// The mark of a level that the user passes, or does not pass.
pub open spec fn access_mark(
    granted: Map<u64, PermissionLevel>,
    held: Option<PermissionLevel>,
    roles: RoleLookup,
    required: PermissionLevel,
) -> Seq<char> {
    if passes(granted, held, roles, required) {
        "✅"@
    } else {
        "❌"@
    }
}

/// Whether a user who holds `held` itself and has these roles passes at
/// `required`.
pub open spec fn passes(
    granted: Map<u64, PermissionLevel>,
    held: Option<PermissionLevel>,
    roles: RoleLookup,
    required: PermissionLevel,
) -> bool {
    (held matches Some(level) && level.spec_rank() >= required.spec_rank()) || (
    roles matches RoleLookup::Roles(list) && highest_role_level(granted, list@) matches Some(level)
        && level.spec_rank() >= required.spec_rank())
}

/// What is known of the roles of a user, in words.
pub open spec fn roles_report(granted: Map<u64, PermissionLevel>, roles: RoleLookup) -> Seq<char> {
    match roles {
        RoleLookup::NoGuild => Seq::empty(),
        RoleLookup::Failed(_) => "🏷️ **Rôles:** Impossible de récupérer\n"@,
        RoleLookup::Roles(list) => {
            let lines = granted_role_lines(granted, list@, list@.len() as int);
            if lines.len() > 0 {
                "🏷️ **Rôles autorisés:**\n"@ + lines + "\n"@
            } else {
                "🏷️ **Rôles autorisés:** Aucun\n"@
            }
        },
    }
}

/// The level that a user holds itself, in words.
pub open spec fn direct_report(held: Option<PermissionLevel>) -> Seq<char> {
    match held {
        Some(level) => "👤 **Permission directe:** "@ + level.spec_label() + "\n"@,
        None => "👤 **Permission directe:** Aucune\n"@,
    }
}

/// For each level whether the user passes, in words.
pub open spec fn access_report(
    granted: Map<u64, PermissionLevel>,
    held: Option<PermissionLevel>,
    roles: RoleLookup,
) -> Seq<char> {
    "\n🎯 **Accès autorisé:**\n• 👤 User: "@ + access_mark(
        granted,
        held,
        roles,
        PermissionLevel::User,
    ) + "\n• 🛡️ Moderator: "@ + access_mark(granted, held, roles, PermissionLevel::Moderator)
        + "\n• 👑 Admin: "@ + access_mark(granted, held, roles, PermissionLevel::Admin) + "\n"@
}

/// The report on what a user may do: the level it holds itself, the
/// levels of its roles, and for each level whether it passes.
pub open spec fn permission_check_text(
    user_name: Seq<char>,
    permissions: GroupPermissions,
    user_id: u64,
    roles: RoleLookup,
) -> Seq<char> {
    let held = permissions.users@.get(user_id);
    "🔍 **Vérification des permissions**\n👤 **Utilisateur:** "@ + user_name + "\n\n"@
        + direct_report(held) + roles_report(permissions.roles@, roles) + access_report(
        permissions.roles@,
        held,
        roles,
    )
}

/// Whether a user who holds `held` itself and has these roles passes at
/// `required`.
pub fn user_passes(
    permission_validator: &PermissionValidator,
    permissions: &GroupPermissions,
    held: Option<PermissionLevel>,
    roles: &RoleLookup,
    required: PermissionLevel,
) -> (pass: bool)
    ensures
        pass == passes(permissions.roles@, held, *roles, required),
{
    match held {
        Some(level) => {
            if level.at_least(required) {
                return true;
            }
        },
        None => {},
    }
    match roles {
        RoleLookup::Roles(list) => match permission_validator.highest_role(permissions, list) {
            Some(level) => level.at_least(required),
            None => false,
        },
        _ => false,
    }
}

/// The lines of the roles of `roles` that the whitelist grants a level.
pub fn granted_roles(permissions: &GroupPermissions, roles: &Vec<u64>) -> (text: String)
    ensures
        text@ == granted_role_lines(permissions.roles@, roles@, roles@.len() as int),
{
    let mut text = String::new();
    let mut any: bool = false;
    let mut i: usize = 0;
    while i < roles.len()
        invariant
            i <= roles.len(),
            text@ == granted_role_lines(permissions.roles@, roles@, i as int),
            any == (text@.len() > 0),
        decreases roles.len() - i,
    {
        match permissions.get_role_level(&roles[i]) {
            Some(level) => {
                if any {
                    text.append("\n");
                }
                text.append(role_mention_text(roles[i]).as_str());
                text.append(" → ");
                text.append(level.label());
                any = true;
            },
            None => {},
        }
        i = i + 1;
    }
    text
}

/// Writes the level that a user holds itself.
pub fn direct_report_line(held: Option<PermissionLevel>) -> (text: String)
    ensures
        text@ == direct_report(held),
{
    match held {
        Some(level) => String::from_str("👤 **Permission directe:** ").concat(
            level.label(),
        ).concat("\n"),
        None => String::from_str("👤 **Permission directe:** Aucune\n"),
    }
}

/// Writes what is known of the roles of a user.
pub fn roles_report_lines(permissions: &GroupPermissions, roles: &RoleLookup) -> (text: String)
    ensures
        text@ == roles_report(permissions.roles@, *roles),
{
    match roles {
        RoleLookup::NoGuild => String::new(),
        RoleLookup::Failed(_) => String::from_str("🏷️ **Rôles:** Impossible de récupérer\n"),
        RoleLookup::Roles(list) => {
            let lines = granted_roles(permissions, list);
            if lines.as_str().unicode_len() > 0 {
                String::from_str("🏷️ **Rôles autorisés:**\n").concat(lines.as_str()).concat("\n")
            } else {
                String::from_str("🏷️ **Rôles autorisés:** Aucun\n")
            }
        },
    }
}

/// Writes the mark of a level that the user passes, or does not pass.
pub fn access_mark_text(
    permission_validator: &PermissionValidator,
    permissions: &GroupPermissions,
    held: Option<PermissionLevel>,
    roles: &RoleLookup,
    required: PermissionLevel,
) -> (text: &'static str)
    ensures
        text@ == access_mark(permissions.roles@, held, *roles, required),
{
    if user_passes(permission_validator, permissions, held, roles, required) {
        "✅"
    } else {
        "❌"
    }
}

/// Writes for each level whether the user passes.
pub fn access_report_lines(
    permission_validator: &PermissionValidator,
    permissions: &GroupPermissions,
    held: Option<PermissionLevel>,
    roles: &RoleLookup,
) -> (text: String)
    ensures
        text@ == access_report(permissions.roles@, held, *roles),
{
    let mut text = String::from_str("\n🎯 **Accès autorisé:**\n• 👤 User: ");
    text.append(
        access_mark_text(permission_validator, permissions, held, roles, PermissionLevel::User),
    );
    text.append("\n• 🛡️ Moderator: ");
    text.append(
        access_mark_text(
            permission_validator,
            permissions,
            held,
            roles,
            PermissionLevel::Moderator,
        ),
    );
    text.append("\n• 👑 Admin: ");
    text.append(
        access_mark_text(permission_validator, permissions, held, roles, PermissionLevel::Admin),
    );
    text.append("\n");
    text
}

/// The answer to the check command: what the user with this name and
/// identifier holds itself, what its roles hold, and for each level
/// whether it passes.
pub fn permission_check_reply(
    permission_validator: &PermissionValidator,
    user_name: &str,
    permissions: &GroupPermissions,
    user_id: u64,
    roles: &RoleLookup,
) -> (reply: Reply)
    ensures
        reply.ephemeral,
        reply.content@ == permission_check_text(user_name@, *permissions, user_id, *roles),
{
    let held = permissions.get_user_level(&user_id);
    let mut text = String::from_str("🔍 **Vérification des permissions**\n👤 **Utilisateur:** ");
    text.append(user_name);
    text.append("\n\n");
    text.append(direct_report_line(held).as_str());
    text.append(roles_report_lines(permissions, roles).as_str());
    text.append(access_report_lines(permission_validator, permissions, held, roles).as_str());
    Reply { content: text, ephemeral: true }
}

} // verus!
