use lekickerfou::bot::cycle::{CycleKind, CyclePhase};
use lekickerfou::config::settings::{BotConfig, CurfewTime};
use lekickerfou::error::BotError;
use lekickerfou::handler::commands::{
    add_role_reply, add_user_reply, channel_mention, check_permission, get_subcommand_options,
    handle_kick_command, handle_permissions_add_role, handle_permissions_add_user, kick_reply,
    handle_permissions_check, handle_permissions_command, handle_permissions_list,
    handle_permissions_remove_role, handle_permissions_remove_user, handle_slash_command,
    handle_status_command, kick_progress, parse_permission_level, permission_check_reply,
    remove_role_reply, remove_user_reply, required_level, user_display_name,
    user_passes,
    CommandOption, KickOutcome, PermissionsSubcommand, SlashCommand,
};
use lekickerfou::handler::{handle_interaction, send_error_response, BotHandler, InteractionKind};
use lekickerfou::permissions::validator::{PermissionValidator, RoleLookup};
use lekickerfou::permissions::whitelist::{GroupPermissions, PermissionLevel, UserPermissions};
use lekickerfou::permissions::PermissionResult;

fn config() -> BotConfig {
    BotConfig {
        voice_channel_id: 42,
        log_channel_id: Some(43),
        warning_channel_id: None,
        curfew_time: CurfewTime::new(23, 0),
        warning_delay_seconds: 60,
        warning_only: true,
        cron_schedule: "0 * * * * *".to_string(),
    }
}

#[test]
fn commands_are_told_apart_by_name() {
    assert_eq!(handle_slash_command("status"), SlashCommand::Status);
    assert_eq!(handle_slash_command("kick"), SlashCommand::Kick);
    assert_eq!(handle_slash_command("permissions"), SlashCommand::Permissions);
    assert_eq!(handle_slash_command("Kick"), SlashCommand::Unknown);
    assert_eq!(handle_slash_command(""), SlashCommand::Unknown);
    assert_eq!(handle_permissions_command("list"), PermissionsSubcommand::List);
    assert_eq!(handle_permissions_command("add-user"), PermissionsSubcommand::AddUser);
    assert_eq!(handle_permissions_command("add-role"), PermissionsSubcommand::AddRole);
    assert_eq!(handle_permissions_command("remove-user"), PermissionsSubcommand::RemoveUser);
    assert_eq!(handle_permissions_command("remove-role"), PermissionsSubcommand::RemoveRole);
    assert_eq!(handle_permissions_command("check"), PermissionsSubcommand::Check);
    assert_eq!(handle_permissions_command("purge"), PermissionsSubcommand::Unknown);
}

#[test]
fn a_moderator_is_needed_to_disconnect_by_hand() {
    assert_eq!(required_level(SlashCommand::Status), Some(PermissionLevel::User));
    assert_eq!(required_level(SlashCommand::Kick), Some(PermissionLevel::Moderator));
    assert_eq!(required_level(SlashCommand::Permissions), Some(PermissionLevel::Admin));
    assert_eq!(required_level(SlashCommand::Unknown), None);
}

#[test]
fn levels_are_read_from_their_names() {
    assert_eq!(parse_permission_level("User"), Some(PermissionLevel::User));
    assert_eq!(parse_permission_level("Moderator"), Some(PermissionLevel::Moderator));
    assert_eq!(parse_permission_level("Admin"), Some(PermissionLevel::Admin));
    assert_eq!(parse_permission_level("admin"), None);
    assert_eq!(parse_permission_level(""), None);
}

#[test]
fn refused_users_are_told_why() {
    let validator = PermissionValidator::new();
    assert_eq!(
        check_permission(
            &validator,
            PermissionResult::Authorized(PermissionLevel::Admin),
            PermissionLevel::Moderator
        ),
        Ok(PermissionLevel::Admin)
    );
    assert_eq!(
        check_permission(&validator, PermissionResult::Unauthorized, PermissionLevel::Moderator),
        Err(validator.permission_denied_message(PermissionLevel::Moderator, None))
    );
    assert_eq!(
        check_permission(
            &validator,
            PermissionResult::Error("panne".to_string()),
            PermissionLevel::Moderator
        ),
        Err("Erreur de permission: panne".to_string())
    );
}

#[test]
fn only_commands_are_handled_and_answered() {
    assert!(handle_interaction(InteractionKind::Command));
    assert!(!handle_interaction(InteractionKind::Component));
    assert!(!handle_interaction(InteractionKind::Modal));
    assert!(!handle_interaction(InteractionKind::Other));
    let reply = send_error_response(InteractionKind::Command, "Commande inconnue").unwrap();
    assert!(reply.ephemeral);
    assert_eq!(reply.content, "❌ **Erreur**\nCommande inconnue");
    assert!(send_error_response(InteractionKind::Modal, "x").is_none());
    let handler = BotHandler::new(config(), PermissionValidator::new());
    assert_eq!(handler.config().voice_channel_id, 42);
    assert_eq!(handler.permission_validator().whitelist_manager().file_path(), "whitelist.json");
}

#[test]
fn status_shows_the_settings() {
    let c = config();
    let reply = handle_status_command(Some(&c));
    assert!(!reply.ephemeral);
    assert_eq!(
        reply.content,
        "🤖 **LeKickerFou v1.1.0** - Bot actif\n\n🔊 **Salon surveillé:** <#42>\n📝 **Salon de log:** <#43>\n⚠️ **Salon d'avertissement:** Aucun\n⏰ **Planning:** `0 * * * * *`\n💌 **Mode avertissement seul:** ✅ Oui\n⏱️ **Délai d'avertissement:** 60 secondes\n\n🟢 **Bot opérationnel**"
    );
    assert_eq!(
        handle_status_command(None).content,
        "🤖 **LeKickerFou v1.1.0** - Bot actif\n\n❌ **Aucune configuration trouvée**\n🟢 **Bot opérationnel mais non configuré**"
    );
    assert_eq!(channel_mention(Some(7)), "<#7>");
    assert_eq!(channel_mention(None), "Aucun");
}

#[test]
fn kick_reports_what_came_of_it() {
    assert_eq!(
        kick_progress().content,
        "⏳ **Déconnexion en cours...**\nRecherche des utilisateurs connectés..."
    );
    assert_eq!(
        kick_reply(&KickOutcome::Disconnected(0), 42),
        "✅ **Déconnexion terminée**\nAucun utilisateur n'était connecté au salon surveillé."
    );
    assert_eq!(
        kick_reply(&KickOutcome::Disconnected(3), 42),
        "✅ **Déconnexion réussie**\n3 utilisateur(s) déconnecté(s) du salon <#42>."
    );
    assert_eq!(
        kick_reply(&KickOutcome::ConfigurationError("absent".to_string()), 42),
        "❌ **Erreur de configuration**\nabsent"
    );
    assert_eq!(
        kick_reply(&KickOutcome::Failed("panne".to_string()), 42),
        "❌ **Erreur lors de la déconnexion**\npanne"
    );
}

#[test]
fn options_are_checked_before_anything_is_done() {
    let good = vec![CommandOption::User(5), CommandOption::Text("Admin".to_string())];
    assert_eq!(
        handle_permissions_add_user(&good).map_err(|r| r.content),
        Ok((5, PermissionLevel::Admin))
    );
    let wrong_user = vec![CommandOption::Role(5), CommandOption::Text("Admin".to_string())];
    let reply = handle_permissions_add_user(&wrong_user).unwrap_err();
    assert!(reply.ephemeral);
    assert_eq!(reply.content, "❌ **Erreur:** Utilisateur invalide");
    let wrong_level = vec![CommandOption::User(5), CommandOption::Other];
    assert_eq!(
        handle_permissions_add_user(&wrong_level).unwrap_err().content,
        "❌ **Erreur:** Niveau invalide"
    );
    let unknown_level = vec![CommandOption::User(5), CommandOption::Text("Chef".to_string())];
    assert_eq!(
        handle_permissions_add_user(&unknown_level).unwrap_err().content,
        "❌ **Erreur:** Niveau de permission invalide"
    );
    let role = vec![CommandOption::Role(8), CommandOption::Text("User".to_string())];
    assert_eq!(
        handle_permissions_add_role(&role).map_err(|r| r.content),
        Ok((8, PermissionLevel::User))
    );
    assert_eq!(
        handle_permissions_add_role(&good).unwrap_err().content,
        "❌ **Erreur:** Rôle invalide"
    );
    assert_eq!(
        handle_permissions_add_role(&vec![CommandOption::Role(8), CommandOption::User(1)])
            .unwrap_err()
            .content,
        "❌ **Erreur:** Niveau invalide"
    );
    assert_eq!(
        handle_permissions_add_role(&vec![
            CommandOption::Role(8),
            CommandOption::Text("x".to_string())
        ])
        .unwrap_err()
        .content,
        "❌ **Erreur:** Niveau de permission invalide"
    );
    assert_eq!(handle_permissions_remove_user(&good).map_err(|r| r.content), Ok(5));
    assert_eq!(
        handle_permissions_remove_user(&role).unwrap_err().content,
        "❌ **Erreur:** Utilisateur invalide"
    );
    assert_eq!(handle_permissions_remove_role(&role).map_err(|r| r.content), Ok(8));
    assert_eq!(
        handle_permissions_remove_role(&good).unwrap_err().content,
        "❌ **Erreur:** Rôle invalide"
    );
    assert_eq!(handle_permissions_check(&good).map_err(|r| r.content), Ok(5));
    assert!(handle_permissions_check(&role).is_err());
    assert_eq!(get_subcommand_options(Some(&good)).map(|l| l.len()), Ok(2));
    assert_eq!(
        get_subcommand_options(None).map(|l| l.len()),
        Err("Format de sous-commande invalide".to_string())
    );
}

#[test]
fn changes_to_the_whitelist_are_answered() {
    assert_eq!(user_display_name(Some("alice#0001".to_string()), 5), "alice#0001");
    assert_eq!(user_display_name(None, 5), "Utilisateur 5");
    let reply = add_user_reply("alice#0001", PermissionLevel::Moderator, "root#1", &Ok(()));
    assert!(!reply.ephemeral);
    assert_eq!(
        reply.content,
        "✅ **Utilisateur ajouté**\n👤 **Utilisateur:** alice#0001\n🔑 **Niveau:** 🛡️ Moderator\n👨‍💻 **Ajouté par:** root#1"
    );
    let reply = add_user_reply("a", PermissionLevel::User, "r", &Err("disque plein".to_string()));
    assert!(reply.ephemeral);
    assert_eq!(reply.content, "❌ **Erreur lors de l'ajout**\ndisque plein");
    let reply = add_role_reply(8, PermissionLevel::Admin, "root#1", &Ok(()));
    assert!(!reply.ephemeral);
    assert_eq!(
        reply.content,
        "✅ **Rôle ajouté**\n🏷️ **Rôle:** <@&8>\n🔑 **Niveau:** 👑 Admin\n👨‍💻 **Ajouté par:** root#1"
    );
    assert_eq!(
        add_role_reply(8, PermissionLevel::Admin, "r", &Err("x".to_string())).content,
        "❌ **Erreur lors de l'ajout**\nx"
    );
    let reply = remove_user_reply("alice#0001", "root#1", &Ok(true));
    assert!(!reply.ephemeral);
    assert_eq!(
        reply.content,
        "✅ **Utilisateur supprimé**\n👤 **Utilisateur:** alice#0001\n👨‍💻 **Supprimé par:** root#1"
    );
    let reply = remove_user_reply("alice#0001", "root#1", &Ok(false));
    assert!(reply.ephemeral);
    assert_eq!(
        reply.content,
        "⚠️ **Utilisateur non trouvé**\nalice#0001 n'était pas dans la whitelist."
    );
    assert_eq!(
        remove_user_reply("a", "r", &Err("x".to_string())).content,
        "❌ **Erreur lors de la suppression**\nx"
    );
    assert_eq!(
        remove_role_reply(8, "root#1", &Ok(true)).content,
        "✅ **Rôle supprimé**\n🏷️ **Rôle:** <@&8>\n👨‍💻 **Supprimé par:** root#1"
    );
    assert_eq!(
        remove_role_reply(8, "root#1", &Ok(false)).content,
        "⚠️ **Rôle non trouvé**\n<@&8> n'était pas dans la whitelist."
    );
    assert!(remove_role_reply(8, "r", &Err("x".to_string())).ephemeral);
}

#[test]
fn the_whitelist_is_listed_in_the_order_given() {
    let mut list = UserPermissions::new(0);
    list.permissions.add_user(1, PermissionLevel::Admin);
    list.permissions.add_user(2, PermissionLevel::User);
    list.permissions.add_role(9, PermissionLevel::Moderator);
    list.update_metadata(Some("root#1".to_string()), 0);
    let reply = handle_permissions_list(
        &list,
        &vec![(2, PermissionLevel::User), (1, PermissionLevel::Admin)],
        &vec![(9, PermissionLevel::Moderator)],
    );
    assert!(reply.ephemeral);
    assert_eq!(
        reply.content,
        "📋 **Permissions LeKickerFou**\n\n📊 **Statistiques:**\n• Version: 1.1.0\n• Utilisateurs: 2\n• Rôles: 1\n• Dernière modification: 1970-01-01 00:00:00 UTC\n• Modifié par: root#1\n\n👥 **Utilisateurs autorisés:**\n• <@2> → 👤 User\n• <@1> → 👑 Admin\n\n🏷️ **Rôles autorisés:**\n• <@&9> → 🛡️ Moderator\n\n💡 **Niveaux de permission:**\n• 👤 User: Commandes de consultation\n• 🛡️ Moderator: + Déconnexions manuelles\n• 👑 Admin: + Gestion des permissions"
    );
    let empty = UserPermissions::new(0);
    assert_eq!(
        handle_permissions_list(&empty, &vec![], &vec![]).content,
        "📋 **Permissions LeKickerFou**\n\n📊 **Statistiques:**\n• Version: 1.1.0\n• Utilisateurs: 0\n• Rôles: 0\n• Dernière modification: 1970-01-01 00:00:00 UTC\n\n👥 **Utilisateurs:** Aucun\n\n🏷️ **Rôles:** Aucun\n\n💡 **Niveaux de permission:**\n• 👤 User: Commandes de consultation\n• 🛡️ Moderator: + Déconnexions manuelles\n• 👑 Admin: + Gestion des permissions"
    );
}

#[test]
fn a_check_reports_what_the_user_may_do() {
    let validator = PermissionValidator::new();
    let mut group = GroupPermissions::new();
    group.add_user(5, PermissionLevel::User);
    group.add_role(8, PermissionLevel::Moderator);
    group.add_role(9, PermissionLevel::User);
    let reply = permission_check_reply(
        &validator,
        "alice#0001",
        &group,
        5,
        &RoleLookup::Roles(vec![9, 1, 8]),
    );
    assert!(reply.ephemeral);
    assert_eq!(
        reply.content,
        "🔍 **Vérification des permissions**\n👤 **Utilisateur:** alice#0001\n\n👤 **Permission directe:** 👤 User\n🏷️ **Rôles autorisés:**\n<@&9> → 👤 User\n<@&8> → 🛡️ Moderator\n\n🎯 **Accès autorisé:**\n• 👤 User: ✅\n• 🛡️ Moderator: ✅\n• 👑 Admin: ❌\n"
    );
    assert_eq!(
        permission_check_reply(&validator, "bob", &group, 6, &RoleLookup::Roles(vec![1])).content,
        "🔍 **Vérification des permissions**\n👤 **Utilisateur:** bob\n\n👤 **Permission directe:** Aucune\n🏷️ **Rôles autorisés:** Aucun\n\n🎯 **Accès autorisé:**\n• 👤 User: ❌\n• 🛡️ Moderator: ❌\n• 👑 Admin: ❌\n"
    );
    assert_eq!(
        permission_check_reply(&validator, "bob", &group, 6, &RoleLookup::Failed("x".to_string()))
            .content,
        "🔍 **Vérification des permissions**\n👤 **Utilisateur:** bob\n\n👤 **Permission directe:** Aucune\n🏷️ **Rôles:** Impossible de récupérer\n\n🎯 **Accès autorisé:**\n• 👤 User: ❌\n• 🛡️ Moderator: ❌\n• 👑 Admin: ❌\n"
    );
    assert_eq!(
        permission_check_reply(&validator, "bob", &group, 5, &RoleLookup::NoGuild).content,
        "🔍 **Vérification des permissions**\n👤 **Utilisateur:** bob\n\n👤 **Permission directe:** 👤 User\n\n🎯 **Accès autorisé:**\n• 👤 User: ✅\n• 🛡️ Moderator: ❌\n• 👑 Admin: ❌\n"
    );
    assert!(user_passes(
        &validator,
        &group,
        None,
        &RoleLookup::Roles(vec![8]),
        PermissionLevel::Moderator
    ));
    assert!(!user_passes(
        &validator,
        &group,
        Some(PermissionLevel::User),
        &RoleLookup::NoGuild,
        PermissionLevel::Moderator
    ));
}

#[test]
fn kick_command_starts_a_cycle_only_for_moderators() {
    let validator = PermissionValidator::new();
    for level in [PermissionLevel::Moderator, PermissionLevel::Admin] {
        let run = handle_kick_command(&validator, PermissionResult::Authorized(level), &config())
            .unwrap();
        assert_eq!(run.policy().kind, CycleKind::Manual);
        assert_eq!(run.phase(), CyclePhase::Idle);
    }
    match handle_kick_command(
        &validator,
        PermissionResult::Authorized(PermissionLevel::User),
        &config(),
    ) {
        Err(BotError::PermissionError(msg)) => assert_eq!(
            msg,
            validator
                .permission_denied_message(PermissionLevel::Moderator, Some(PermissionLevel::User))
        ),
        other => panic!("unexpected result: {:?}", other.map(|run| run.phase())),
    }
    match handle_kick_command(&validator, PermissionResult::Unauthorized, &config()) {
        Err(BotError::PermissionError(msg)) => assert_eq!(
            msg,
            validator.permission_denied_message(PermissionLevel::Moderator, None)
        ),
        other => panic!("unexpected result: {:?}", other.map(|run| run.phase())),
    }
    match handle_kick_command(&validator, PermissionResult::Error("panne".to_string()), &config()) {
        Err(BotError::PermissionError(msg)) => assert_eq!(msg, "Erreur de permission: panne"),
        other => panic!("unexpected result: {:?}", other.map(|run| run.phase())),
    }
}
