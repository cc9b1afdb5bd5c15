use lekickerfou::permissions::validator::{PermissionValidator, RoleLookup};
use lekickerfou::permissions::whitelist::{
    GroupPermissions, PermissionLevel, UserPermissions, WhitelistManager,
};
use lekickerfou::permissions::PermissionResult;

fn whitelist() -> GroupPermissions {
    let mut group = GroupPermissions::new();
    group.add_user(10, PermissionLevel::User);
    group.add_user(11, PermissionLevel::Moderator);
    group.add_user(12, PermissionLevel::Admin);
    group.add_role(100, PermissionLevel::User);
    group.add_role(101, PermissionLevel::Moderator);
    group.add_role(102, PermissionLevel::Admin);
    group
}

#[test]
fn levels_are_ordered() {
    assert!(PermissionLevel::User < PermissionLevel::Moderator);
    assert!(PermissionLevel::Moderator < PermissionLevel::Admin);
    assert_eq!(PermissionLevel::User.rank(), 0);
    assert_eq!(PermissionLevel::Moderator.rank(), 1);
    assert_eq!(PermissionLevel::Admin.rank(), 2);
    assert!(PermissionLevel::Admin.at_least(PermissionLevel::Moderator));
    assert!(PermissionLevel::Moderator.at_least(PermissionLevel::Moderator));
    assert!(!PermissionLevel::User.at_least(PermissionLevel::Moderator));
    assert_eq!(PermissionLevel::User.label(), "👤 User");
    assert_eq!(PermissionLevel::Moderator.label(), "🛡️ Moderator");
    assert_eq!(PermissionLevel::Admin.label(), "👑 Admin");
}

#[test]
fn results_tell_whether_and_at_which_level() {
    let ok = PermissionResult::Authorized(PermissionLevel::Moderator);
    assert!(ok.is_authorized());
    assert_eq!(ok.permission_level(), Some(PermissionLevel::Moderator));
    assert!(!PermissionResult::Unauthorized.is_authorized());
    assert_eq!(PermissionResult::Unauthorized.permission_level(), None);
    let failed = PermissionResult::Error("x".to_string());
    assert!(!failed.is_authorized());
    assert_eq!(failed.permission_level(), None);
}

#[test]
fn whitelist_grants_and_takes_back() {
    let mut group = GroupPermissions::new();
    assert_eq!(group.get_user_level(&1), None);
    group.add_user(1, PermissionLevel::User);
    group.add_user(1, PermissionLevel::Admin);
    assert_eq!(group.get_user_level(&1), Some(PermissionLevel::Admin));
    assert_eq!(group.get_role_level(&1), None);
    group.add_role(7, PermissionLevel::Moderator);
    assert_eq!(group.get_role_level(&7), Some(PermissionLevel::Moderator));
    assert!(group.remove_user(&1));
    assert!(!group.remove_user(&1));
    assert_eq!(group.get_user_level(&1), None);
    assert!(group.remove_role(&7));
    assert!(!group.remove_role(&7));
    assert_eq!(group.users.len(), 0);
}

#[test]
fn changes_are_recorded_in_the_metadata() {
    let manager = WhitelistManager::new();
    assert_eq!(manager.file_path(), "whitelist.json");
    let mut list = manager.load_or_create(None, 5);
    assert_eq!(list.version, "1.1.0");
    assert_eq!(list.metadata.last_modified, 5);
    assert_eq!(list.metadata.total_users, 0);
    manager.add_user(&mut list, 1, PermissionLevel::Admin, Some("root#1".to_string()), 6);
    manager.add_user(&mut list, 2, PermissionLevel::User, Some("root#1".to_string()), 7);
    manager.add_role(&mut list, 9, PermissionLevel::Moderator, None, 8);
    assert_eq!(list.metadata.total_users, 2);
    assert_eq!(list.metadata.total_roles, 1);
    assert_eq!(list.metadata.last_modified, 8);
    assert_eq!(list.metadata.modified_by, None);
    assert!(!manager.remove_user(&mut list, 3, Some("x".to_string()), 9));
    assert_eq!(list.metadata.last_modified, 8);
    assert_eq!(list.metadata.modified_by, None);
    assert!(manager.remove_user(&mut list, 2, Some("x".to_string()), 10));
    assert_eq!(list.metadata.total_users, 1);
    assert_eq!(list.metadata.last_modified, 10);
    assert_eq!(list.metadata.modified_by.as_deref(), Some("x"));
    assert!(manager.remove_role(&mut list, 9, None, 11));
    assert!(!manager.remove_role(&mut list, 9, None, 12));
    assert_eq!(list.metadata.total_roles, 0);
    assert_eq!(list.metadata.last_modified, 11);
    let kept = manager.load_or_create(Some(list), 99);
    assert_eq!(kept.metadata.last_modified, 11);
    let mut fresh = UserPermissions::new(1);
    fresh.permissions.add_user(4, PermissionLevel::User);
    fresh.update_metadata(Some("me".to_string()), 2);
    assert_eq!(fresh.metadata.total_users, 1);
    assert_eq!(fresh.metadata.last_modified, 2);
}

#[test]
fn direct_permission_passes_first() {
    let validator = PermissionValidator::new();
    let group = whitelist();
    let failed = RoleLookup::Failed("offline".to_string());
    assert_eq!(
        validator.validate_interaction_permission(
            Some(11),
            Ok(&group),
            &failed,
            PermissionLevel::Moderator
        ),
        PermissionResult::Authorized(PermissionLevel::Moderator)
    );
    assert_eq!(
        validator.validate_interaction_permission(
            Some(12),
            Ok(&group),
            &RoleLookup::NoGuild,
            PermissionLevel::User
        ),
        PermissionResult::Authorized(PermissionLevel::Admin)
    );
    assert_eq!(
        validator.direct_permission(&group, 10, PermissionLevel::Moderator),
        None
    );
    assert_eq!(
        validator.direct_permission(&group, 10, PermissionLevel::User),
        Some(PermissionLevel::User)
    );
}

#[test]
fn roles_pass_at_their_highest_level() {
    let validator = PermissionValidator::new();
    let group = whitelist();
    assert_eq!(
        validator.validate_interaction_permission(
            Some(10),
            Ok(&group),
            &RoleLookup::Roles(vec![100, 555, 102, 101]),
            PermissionLevel::Moderator
        ),
        PermissionResult::Authorized(PermissionLevel::Admin)
    );
    assert_eq!(
        validator.validate_interaction_permission(
            Some(99),
            Ok(&group),
            &RoleLookup::Roles(vec![100]),
            PermissionLevel::Moderator
        ),
        PermissionResult::Unauthorized
    );
    assert_eq!(
        validator.validate_interaction_permission(
            Some(99),
            Ok(&group),
            &RoleLookup::Roles(vec![]),
            PermissionLevel::User
        ),
        PermissionResult::Unauthorized
    );
    assert_eq!(validator.highest_role(&group, &vec![555, 100, 101, 100]), Some(PermissionLevel::Moderator));
    assert_eq!(validator.highest_role(&group, &vec![555]), None);
}

#[test]
fn checks_that_cannot_be_made_are_errors() {
    let validator = PermissionValidator::new();
    let group = whitelist();
    assert_eq!(
        validator.validate_interaction_permission(
            None,
            Ok(&group),
            &RoleLookup::NoGuild,
            PermissionLevel::User
        ),
        PermissionResult::Error("Type d'interaction non supporté".to_string())
    );
    assert_eq!(
        validator.validate_interaction_permission(
            Some(12),
            Err("fichier illisible".to_string()),
            &RoleLookup::NoGuild,
            PermissionLevel::User
        ),
        PermissionResult::Error("Erreur chargement whitelist: fichier illisible".to_string())
    );
    assert_eq!(
        validator.validate_interaction_permission(
            Some(10),
            Ok(&group),
            &RoleLookup::Failed("offline".to_string()),
            PermissionLevel::Admin
        ),
        PermissionResult::Error("Erreur récupération rôles: offline".to_string())
    );
    assert_eq!(
        validator.validate_interaction_permission(
            Some(10),
            Ok(&group),
            &RoleLookup::NoGuild,
            PermissionLevel::Admin
        ),
        PermissionResult::Unauthorized
    );
}

#[test]
fn refusals_name_the_levels() {
    let validator = PermissionValidator::new();
    assert_eq!(
        validator.permission_denied_message(PermissionLevel::Admin, Some(PermissionLevel::User)),
        "❌ **Accès refusé**\nVotre niveau: 👤 User\nNiveau requis: 👑 Admin\n\n💡 Contactez un administrateur pour obtenir les permissions nécessaires."
    );
    assert_eq!(
        validator.permission_denied_message(PermissionLevel::Moderator, None),
        "❌ **Accès refusé**\nVous n'êtes pas autorisé à utiliser cette commande.\nNiveau requis: 🛡️ Moderator\n\n💡 Contactez un administrateur pour être ajouté à la whitelist."
    );
    assert_eq!(validator.whitelist_manager().file_path(), "whitelist.json");
}
