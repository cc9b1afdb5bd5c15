use lekickerfou::handler::interactions::{
    backup_filename, handle_backup_config_button, handle_cancel_button,
    handle_confirm_kick_button, handle_message_component, handle_modal_submit,
    handle_restore_backup_button, handle_show_config_button, modal_reply, starts_with,
    ComponentAction, ModalAction,
};

#[test]
fn test_button_id_parsing() {
    let button_id = "restore_backup_2024-01-15_14-30-25.json";
    let filename = backup_filename(button_id);

    assert_eq!(filename, "2024-01-15_14-30-25.json");
    assert_eq!(
        filename,
        button_id.strip_prefix("restore_backup_").unwrap_or("unknown")
    );
}

#[test]
fn test_unknown_button_handling() {
    let unknown_id = "unknown_button_id";
    let filename = backup_filename(unknown_id);

    assert_eq!(filename, "unknown");
    assert_eq!(
        filename,
        unknown_id.strip_prefix("restore_backup_").unwrap_or("unknown")
    );
}

#[test]
fn bare_prefix_names_an_empty_backup() {
    assert_eq!(backup_filename("restore_backup_"), "");
    assert_eq!(backup_filename("restore_backup"), "unknown");
    assert_eq!(backup_filename(""), "unknown");
    assert_eq!(backup_filename("restore_backup_étoile🌟.json"), "étoile🌟.json");
}

#[test]
fn prefixes_are_compared_by_character() {
    assert!(starts_with("abc", ""));
    assert!(starts_with("abc", "ab"));
    assert!(starts_with("abc", "abc"));
    assert!(!starts_with("abc", "abcd"));
    assert!(!starts_with("abc", "b"));
    assert!(starts_with("été", "ét"));
    assert!(!starts_with("ete", "ét"));
}

#[test]
fn buttons_are_told_apart() {
    assert_eq!(handle_message_component("confirm_kick"), ComponentAction::ConfirmKick);
    assert_eq!(handle_message_component("cancel_action"), ComponentAction::CancelAction);
    assert_eq!(handle_message_component("show_config"), ComponentAction::ShowConfig);
    assert_eq!(handle_message_component("backup_config"), ComponentAction::BackupConfig);
    assert_eq!(
        handle_message_component("restore_backup_a.json"),
        ComponentAction::RestoreBackup
    );
    assert_eq!(handle_message_component("confirm_kick "), ComponentAction::Unknown);
    assert_eq!(handle_message_component(""), ComponentAction::Unknown);
}

#[test]
fn forms_are_told_apart() {
    assert_eq!(handle_modal_submit("config_edit_modal"), ModalAction::ConfigEdit);
    assert_eq!(handle_modal_submit("add_permission_modal"), ModalAction::AddPermission);
    assert_eq!(handle_modal_submit("schedule_edit_modal"), ModalAction::ScheduleEdit);
    assert_eq!(handle_modal_submit("other"), ModalAction::Unknown);
    assert!(modal_reply(ModalAction::Unknown).is_none());
    let reply = modal_reply(ModalAction::ScheduleEdit).unwrap();
    assert!(reply.ephemeral);
    assert!(reply.content.starts_with("⏰ **Planning mis à jour**\n"));
}

#[test]
fn restore_button_is_answered_with_the_backup_name() {
    let (reply, note) = handle_restore_backup_button("restore_backup_2024-01-15_14-30-25.json");
    assert!(reply.ephemeral);
    assert_eq!(
        reply.content,
        "🔄 **Restauration en cours**\nSauvegarde à restaurer: `2024-01-15_14-30-25.json`\n\nCette fonctionnalité sera disponible dans une future version."
    );
    assert_eq!(note, "Fichier: 2024-01-15_14-30-25.json");
    let cancel = handle_cancel_button();
    assert_eq!(
        cancel.content,
        "❌ **Action annulée**\nAucune modification n'a été effectuée."
    );
}

#[test]
fn fixed_buttons_have_fixed_answers() {
    let confirm = handle_confirm_kick_button();
    assert!(!confirm.ephemeral);
    assert_eq!(confirm.content, "✅ Déconnexion confirmée et exécutée.");
    let backup = handle_backup_config_button();
    assert!(backup.ephemeral);
    assert_eq!(backup.content, "✅ Sauvegarde de configuration créée avec succès.");
    let shown = handle_show_config_button();
    assert!(shown.ephemeral);
    assert!(shown.content.starts_with("⚙️ **Configuration détaillée**\n\n"));
}
