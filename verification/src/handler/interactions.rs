//! Buttons and forms: which one was used, and what is answered.

use vstd::prelude::*;
use vstd::string::*;
use crate::handler::commands::Reply;
use crate::utils::text_equals;

verus! {

/// The start of the identifier of a button that restores a backup; the
/// name of the backup follows.
pub const RESTORE_PREFIX: &'static str = "restore_backup_";

/// The name that stands for a backup that a button does not name.
pub const UNKNOWN_BACKUP: &'static str = "unknown";

/// What a button asks for.
#[derive(Debug, Clone, Copy, PartialEq, Eq, Structural)]
pub enum ComponentAction {
    /// Confirm the disconnection.
    ConfirmKick,
    /// Cancel what was begun.
    CancelAction,
    /// Show the settings.
    ShowConfig,
    /// Make a backup of the settings.
    BackupConfig,
    /// Restore the backup that the identifier names.
    RestoreBackup,
    /// No button of this bot.
    Unknown,
}

/// What a submitted form is for.
#[derive(Debug, Clone, Copy, PartialEq, Eq, Structural)]
pub enum ModalAction {
    /// Edit the settings.
    ConfigEdit,
    /// Add a permission.
    AddPermission,
    /// Edit the schedule.
    ScheduleEdit,
    /// No form of this bot.
    Unknown,
}

/// Whether `text` begins with `prefix`.
pub open spec fn has_prefix(text: Seq<char>, prefix: Seq<char>) -> bool {
    prefix.len() <= text.len() && text.subrange(0, prefix.len() as int) == prefix
}

/// The name of the backup that a button names: what follows the start of
/// the identifier, or the name for none where the identifier starts
/// otherwise.
pub open spec fn backup_named(button_id: Seq<char>) -> Seq<char> {
    if has_prefix(button_id, RESTORE_PREFIX@) {
        button_id.subrange(RESTORE_PREFIX@.len() as int, button_id.len() as int)
    } else {
        UNKNOWN_BACKUP@
    }
}

/// What the button with this identifier asks for.
pub open spec fn component_named(component_id: Seq<char>) -> ComponentAction {
    if component_id == "confirm_kick"@ {
        ComponentAction::ConfirmKick
    } else if component_id == "cancel_action"@ {
        ComponentAction::CancelAction
    } else if component_id == "show_config"@ {
        ComponentAction::ShowConfig
    } else if component_id == "backup_config"@ {
        ComponentAction::BackupConfig
    } else if has_prefix(component_id, RESTORE_PREFIX@) {
        ComponentAction::RestoreBackup
    } else {
        ComponentAction::Unknown
    }
}

/// What the form with this identifier is for.
pub open spec fn modal_named(modal_id: Seq<char>) -> ModalAction {
    if modal_id == "config_edit_modal"@ {
        ModalAction::ConfigEdit
    } else if modal_id == "add_permission_modal"@ {
        ModalAction::AddPermission
    } else if modal_id == "schedule_edit_modal"@ {
        ModalAction::ScheduleEdit
    } else {
        ModalAction::Unknown
    }
}

/// Tells whether `text` begins with `prefix`.
pub fn starts_with(text: &str, prefix: &str) -> (found: bool)
    ensures
        found == has_prefix(text@, prefix@),
{
    let text_len: usize = text.unicode_len();
    let prefix_len: usize = prefix.unicode_len();
    if prefix_len > text_len {
        return false;
    }
    let mut i: usize = 0;
    while i < prefix_len
        invariant
            i <= prefix_len,
            prefix_len <= text_len,
            text_len == text@.len(),
            prefix_len == prefix@.len(),
            text@.subrange(0, i as int) == prefix@.subrange(0, i as int),
        decreases prefix_len - i,
    {
        if text.get_char(i) != prefix.get_char(i) {
            return false;
        }
        i = i + 1;
    }
    proof {
        assert(prefix@.subrange(0, prefix_len as int) =~= prefix@);
    }
    true
}

/// The name of the backup that the button with this identifier restores:
/// what follows the start of the identifier, or the name for none where
/// the identifier starts otherwise.
pub fn backup_filename(button_id: &str) -> (name: String)
    ensures
        name@ == backup_named(button_id@),
{
    if starts_with(button_id, RESTORE_PREFIX) {
        let from: usize = RESTORE_PREFIX.unicode_len();
        let to: usize = button_id.unicode_len();
        String::from_str(button_id.substring_char(from, to))
    } else {
        String::from_str(UNKNOWN_BACKUP)
    }
}

/// Tells what the button with this identifier asks for.
pub fn handle_message_component(component_id: &str) -> (action: ComponentAction)
    ensures
        action == component_named(component_id@),
{
    if text_equals(component_id, "confirm_kick") {
        ComponentAction::ConfirmKick
    } else if text_equals(component_id, "cancel_action") {
        ComponentAction::CancelAction
    } else if text_equals(component_id, "show_config") {
        ComponentAction::ShowConfig
    } else if text_equals(component_id, "backup_config") {
        ComponentAction::BackupConfig
    } else if starts_with(component_id, RESTORE_PREFIX) {
        ComponentAction::RestoreBackup
    } else {
        ComponentAction::Unknown
    }
}

/// Tells what the form with this identifier is for.
pub fn handle_modal_submit(modal_id: &str) -> (action: ModalAction)
    ensures
        action == modal_named(modal_id@),
{
    if text_equals(modal_id, "config_edit_modal") {
        ModalAction::ConfigEdit
    } else if text_equals(modal_id, "add_permission_modal") {
        ModalAction::AddPermission
    } else if text_equals(modal_id, "schedule_edit_modal") {
        ModalAction::ScheduleEdit
    } else {
        ModalAction::Unknown
    }
}

/// What is answered to the button that restores the backup with this name.
pub open spec fn restore_text(backup_name: Seq<char>) -> Seq<char> {
    "🔄 **Restauration en cours**\nSauvegarde à restaurer: `"@ + backup_name
        + "`\n\nCette fonctionnalité sera disponible dans une future version."@
}

/// What is noted in the log of the button that restores the backup with
/// this name.
pub open spec fn restore_note(backup_name: Seq<char>) -> Seq<char> {
    "Fichier: "@ + backup_name
}

/// The answer to the button with the identifier `button_id` that restores
/// a backup, and what is noted of it in the log.
pub fn handle_restore_backup_button(button_id: &str) -> (answer: (Reply, String))
    ensures
        answer.0.ephemeral,
        answer.0.content@ == restore_text(backup_named(button_id@)),
        answer.1@ == restore_note(backup_named(button_id@)),
{
    let name = backup_filename(button_id);
    let mut text = String::from_str("🔄 **Restauration en cours**\nSauvegarde à restaurer: `");
    text.append(name.as_str());
    text.append("`\n\nCette fonctionnalité sera disponible dans une future version.");
    let note = String::from_str("Fichier: ").concat(name.as_str());
    (Reply { content: text, ephemeral: true }, note)
}

/// What is answered to the button that confirms the disconnection.
pub open spec fn confirm_kick_text() -> Seq<char> {
    "✅ Déconnexion confirmée et exécutée."@
}

/// The answer to the button that confirms the disconnection.
pub fn handle_confirm_kick_button() -> (reply: Reply)
    ensures
        !reply.ephemeral,
        reply.content@ == confirm_kick_text(),
{
    Reply { content: String::from_str("✅ Déconnexion confirmée et exécutée."), ephemeral: false }
}

/// What is answered to the button that makes a backup of the settings.
pub open spec fn backup_config_text() -> Seq<char> {
    "✅ Sauvegarde de configuration créée avec succès."@
}

/// The answer to the button that makes a backup of the settings.
pub fn handle_backup_config_button() -> (reply: Reply)
    ensures
        reply.ephemeral,
        reply.content@ == backup_config_text(),
{
    Reply {
        content: String::from_str("✅ Sauvegarde de configuration créée avec succès."),
        ephemeral: true,
    }
}

/// What is answered to the button that cancels.
pub open spec fn cancel_text() -> Seq<char> {
    "❌ **Action annulée**\nAucune modification n'a été effectuée."@
}

/// The answer to the button that cancels.
pub fn handle_cancel_button() -> (reply: Reply)
    ensures
        reply.ephemeral,
        reply.content@ == cancel_text(),
{
    Reply {
        content: String::from_str(
            "❌ **Action annulée**\nAucune modification n'a été effectuée.",
        ),
        ephemeral: true,
    }
}

/// What is answered to the button that shows the settings.
pub open spec fn show_config_text() -> Seq<char> {
    "⚙️ **Configuration détaillée**\n\nCette fonctionnalité sera disponible dans une future version.\nPour l'instant, utilisez la commande `/config` ou modifiez directement les fichiers."@
}

/// The answer to the button that shows the settings.
pub fn handle_show_config_button() -> (reply: Reply)
    ensures
        reply.ephemeral,
        reply.content@ == show_config_text(),
{
    Reply {
        content: String::from_str(
            "⚙️ **Configuration détaillée**\n\nCette fonctionnalité sera disponible dans une future version.\nPour l'instant, utilisez la commande `/config` ou modifiez directement les fichiers.",
        ),
        ephemeral: true,
    }
}

/// What is answered to a submitted form.
pub open spec fn modal_text(action: ModalAction) -> Option<Seq<char>> {
    match action {
        ModalAction::ConfigEdit => Some(
            "⚙️ **Configuration mise à jour**\nLes modifications seront appliquées au prochain redémarrage du bot.\n\nCette fonctionnalité est en cours de développement."@,
        ),
        ModalAction::AddPermission => Some(
            "👤 **Permission ajoutée**\nL'utilisateur/rôle a été ajouté à la whitelist.\n\nCette fonctionnalité est en cours de développement."@,
        ),
        ModalAction::ScheduleEdit => Some(
            "⏰ **Planning mis à jour**\nLa nouvelle expression cron sera appliquée au prochain redémarrage.\n\nCette fonctionnalité est en cours de développement."@,
        ),
        ModalAction::Unknown => None,
    }
}

/// The answer to a submitted form; none for a form that is none of this
/// bot's.
pub fn modal_reply(action: ModalAction) -> (reply: Option<Reply>)
    ensures
        match reply {
            Some(r) => r.ephemeral && modal_text(action) == Some(r.content@),
            None => modal_text(action) is None,
        },
{
    match action {
        ModalAction::ConfigEdit => Some(
            Reply {
                content: String::from_str(
                    "⚙️ **Configuration mise à jour**\nLes modifications seront appliquées au prochain redémarrage du bot.\n\nCette fonctionnalité est en cours de développement.",
                ),
                ephemeral: true,
            },
        ),
        ModalAction::AddPermission => Some(
            Reply {
                content: String::from_str(
                    "👤 **Permission ajoutée**\nL'utilisateur/rôle a été ajouté à la whitelist.\n\nCette fonctionnalité est en cours de développement.",
                ),
                ephemeral: true,
            },
        ),
        ModalAction::ScheduleEdit => Some(
            Reply {
                content: String::from_str(
                    "⏰ **Planning mis à jour**\nLa nouvelle expression cron sera appliquée au prochain redémarrage.\n\nCette fonctionnalité est en cours de développement.",
                ),
                ephemeral: true,
            },
        ),
        ModalAction::Unknown => None,
    }
}

} // verus!
