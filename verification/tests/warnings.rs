use lekickerfou::bot::cycle::{Occupant, WarningKind};
use lekickerfou::bot::phrases::{
    final_warning_gif, final_warning_message, merciful_gif, merciful_message, warning_closing,
    warning_gif, warning_opening, FINAL_WARNING_GIF_COUNT, FINAL_WARNING_MESSAGE_COUNT,
    MERCIFUL_GIF_COUNT, MERCIFUL_MESSAGE_COUNT, WARNING_GIF_COUNT, WARNING_MESSAGE_COUNT,
};
use lekickerfou::bot::voice_manager::VoiceChannelManager;
use lekickerfou::bot::warning::{mention_line, Colour, WarningManager};
use lekickerfou::config::settings::BotConfig;
use lekickerfou::scheduler::{
    get_members_in_voice_channel, manual_summary, scheduled_summary, send_warning, VoicePresence,
};

fn user(id: u64, name: &str) -> Occupant {
    Occupant { user_id: id, display_name: name.to_string(), is_bot: false }
}

fn bot(id: u64, name: &str) -> Occupant {
    Occupant { user_id: id, display_name: name.to_string(), is_bot: true }
}

fn config(warning_channel: Option<u64>, lenient: bool) -> BotConfig {
    BotConfig {
        voice_channel_id: 1,
        log_channel_id: None,
        warning_channel_id: warning_channel,
        curfew_time: None,
        warning_delay_seconds: 600,
        warning_only: lenient,
        cron_schedule: "0 * * * * *".to_string(),
    }
}

#[test]
fn one_target_is_named_alone() {
    let manager = WarningManager::new(config(Some(5), false));
    assert_eq!(manager.format_user_list(&vec![user(1, "Alice")]), "**Cible désignée :** Alice");
}

#[test]
fn several_targets_are_listed_with_their_count() {
    let manager = WarningManager::new(config(Some(5), false));
    assert_eq!(
        manager.format_user_list(&vec![user(1, "Alice"), user(2, "Bob"), user(3, "Chloé")]),
        "**Cibles désignées (3) :**\n• Alice\n• Bob\n• Chloé"
    );
    assert_eq!(manager.format_user_list(&vec![]), "**Cibles désignées (0) :**\n");
}

#[test]
fn everybody_is_mentioned_in_the_greeting() {
    let manager = WarningManager::new(config(Some(5), false));
    assert_eq!(manager.greeting(&vec![user(11, "A"), user(22, "B")]), "👋 <@11> <@22>");
    assert_eq!(manager.greeting(&vec![user(11, "A")]), "👋 <@11>");
    assert_eq!(mention_line(&vec![]), "");
    assert_eq!(mention_line(&vec![user(1, "A"), user(2, "B"), user(3, "C")]), "<@1> <@2> <@3>");
}

#[test]
fn first_warning_states_the_delay_and_the_mode() {
    let strict = WarningManager::new(config(Some(5), false));
    assert_eq!(
        strict.initial_warning_message(3, &vec![user(1, "Alice")]),
        "🔇 **Extinction des feux dans 600 secondes** 🔇\n\nTout le monde dégage du vocal ! Plus personne ne doit traîner ici après ça !\n\n**Cible désignée :** Alice\n\n⚠️ *Cette menace est bien réelle ! Déconnexion automatique programmée !*"
    );
    let lenient = WarningManager::new(config(Some(5), true));
    let text = lenient.initial_warning_message(0, &vec![user(1, "Alice"), user(2, "Bob")]);
    assert_eq!(
        text,
        "⏰ **Bon allez, c'est l'heure !** ⏰\n\nIl est temps de déconnecter les gars. Vous avez **600 secondes** pour partir avant que je vous vire moi-même du vocal !\n\n**Cibles désignées (2) :**\n• Alice\n• Bob\n\n💌 *Mode gentil activé - Aucune déconnexion ne sera effectuée, ceci n'est qu'un rappel amical !*"
    );
    assert_eq!(lenient.wait_warning_delay(), 600);
}

#[test]
fn final_and_lenient_messages_close_with_their_line() {
    let manager = WarningManager::new(config(Some(5), false));
    assert_eq!(
        manager.final_warning_message(6, &vec![user(1, "Alice")]),
        "🎬 **FIN DU FILM !** 🎬\n\nLe générique va défiler sur vos têtes ! **10 secondes** avant le kick final !\n\n**Cible désignée :** Alice\n\n🔥 *Vous avez eu votre chance... Maintenant c'est l'heure de payer !*"
    );
    assert_eq!(
        manager.merciful_message(4, &vec![user(1, "Alice")]),
        "👑 **GRÂCE ROYALE !** 👑\n\nSa Majesté LeKickerFou vous accorde son pardon ! Mais ne comptez pas sur ma clémence éternellement !\n\n**Cible désignée :** Alice\n\n😇 *Profitez bien de cette clémence... Elle ne durera peut-être pas !*"
    );
}

#[test]
fn tables_have_the_stated_sizes() {
    assert_eq!(
        (WARNING_GIF_COUNT, FINAL_WARNING_GIF_COUNT, MERCIFUL_GIF_COUNT),
        (8, 4, 3)
    );
    assert_eq!(
        (WARNING_MESSAGE_COUNT, FINAL_WARNING_MESSAGE_COUNT, MERCIFUL_MESSAGE_COUNT),
        (10, 8, 8)
    );
    let mut seen: Vec<&str> = Vec::new();
    for i in 0..WARNING_GIF_COUNT {
        seen.push(warning_gif(i));
    }
    for i in 0..FINAL_WARNING_GIF_COUNT {
        seen.push(final_warning_gif(i));
    }
    for i in 0..MERCIFUL_GIF_COUNT {
        seen.push(merciful_gif(i));
    }
    for i in 0..WARNING_MESSAGE_COUNT {
        seen.push(warning_opening(i));
        assert!(warning_closing(i).contains("secondes") || warning_opening(i).contains("secondes"));
    }
    for i in 0..FINAL_WARNING_MESSAGE_COUNT {
        seen.push(final_warning_message(i));
        assert!(final_warning_message(i).contains("**10 secondes**"));
    }
    for i in 0..MERCIFUL_MESSAGE_COUNT {
        seen.push(merciful_message(i));
    }
    let total = seen.len();
    seen.sort();
    seen.dedup();
    assert_eq!(seen.len(), total);
    assert!(warning_gif(0).starts_with("https://media3.giphy.com/media/"));
    assert!(merciful_gif(2).ends_with("/l0MYu38R0PPhIXe36/giphy.gif"));
}

#[test]
fn random_messages_are_among_those_there_are() {
    let manager = WarningManager::new(config(Some(5), false));
    let members = vec![user(1, "Alice"), user(2, "Bob")];
    let mut initial_seen: Vec<String> = Vec::new();
    for _ in 0..200 {
        let text = manager.generate_initial_warning_message(&members);
        assert!((0..WARNING_MESSAGE_COUNT)
            .any(|i| manager.initial_warning_message(i, &members) == text));
        if !initial_seen.contains(&text) {
            initial_seen.push(text);
        }
        let text = manager.generate_final_warning_message(&members);
        assert!((0..FINAL_WARNING_MESSAGE_COUNT)
            .any(|i| manager.final_warning_message(i, &members) == text));
        let text = manager.generate_merciful_message(&members);
        assert!((0..MERCIFUL_MESSAGE_COUNT)
            .any(|i| manager.merciful_message(i, &members) == text));
    }
    assert!(initial_seen.len() > 1);
}

#[test]
fn warnings_are_framed_for_the_warning_channel() {
    let manager = WarningManager::new(config(Some(5), false));
    let members = vec![user(11, "Alice"), user(22, "Bob")];
    let framed = manager.send_initial_warning(&members, "Général").unwrap();
    assert_eq!(framed.channel_id, 5);
    assert_eq!(framed.title, "🚨 ALERTE COUVRE-FEU 🚨");
    assert_eq!(framed.colour, Colour { red: 255, green: 165, blue: 0 });
    assert_eq!(framed.footer, "Salon concerné: Général | Bot LeKickerFou");
    assert_eq!(framed.content, "👋 <@11> <@22>");
    assert!((0..WARNING_GIF_COUNT).any(|i| warning_gif(i) == framed.image_url));
    assert!((0..WARNING_MESSAGE_COUNT)
        .any(|i| manager.initial_warning_message(i, &members) == framed.description));
    let framed = manager.send_final_warning(&members, "Général").unwrap();
    assert_eq!(framed.title, "💀 SENTENCE FINALE 💀");
    assert_eq!(framed.colour, Colour { red: 220, green: 20, blue: 60 });
    assert!((0..FINAL_WARNING_GIF_COUNT).any(|i| final_warning_gif(i) == framed.image_url));
    let framed = manager.send_merciful_message(&members, "Général").unwrap();
    assert_eq!(framed.title, "🌟 GRÂCE ACCORDÉE 🌟");
    assert_eq!(framed.colour, Colour { red: 50, green: 205, blue: 50 });
    assert!((0..MERCIFUL_GIF_COUNT).any(|i| merciful_gif(i) == framed.image_url));
}

#[test]
fn nothing_is_framed_without_targets_or_channel() {
    let manager = WarningManager::new(config(Some(5), false));
    assert!(manager.send_initial_warning(&vec![], "Général").is_none());
    assert!(manager.send_final_warning(&vec![], "Général").is_none());
    assert!(manager.send_merciful_message(&vec![], "Général").is_none());
    let silent = WarningManager::new(config(None, false));
    let members = vec![user(11, "Alice")];
    assert!(silent.send_initial_warning(&members, "Général").is_none());
    assert!(silent.send_final_warning(&members, "Général").is_none());
    assert!(silent.send_merciful_message(&members, "Général").is_none());
    assert!(silent
        .send_warning_embed(
            &members,
            "Général",
            "t",
            "m".to_string(),
            "g",
            Colour { red: 1, green: 2, blue: 3 }
        )
        .is_none());
    let framed = manager
        .send_warning_embed(
            &members,
            "Général",
            "t",
            "m".to_string(),
            "g",
            Colour { red: 1, green: 2, blue: 3 },
        )
        .unwrap();
    assert_eq!(
        (framed.title.as_str(), framed.description.as_str(), framed.image_url.as_str()),
        ("t", "m", "g")
    );
}

#[test]
fn early_warning_concerns_only_humans() {
    let manager = VoiceChannelManager::new(config(Some(5), false));
    let framed = manager
        .send_initial_warning_if_needed(&vec![bot(9, "robot"), user(11, "Alice")], "Général")
        .unwrap();
    assert_eq!(framed.content, "👋 <@11>");
    assert!(framed.description.contains("**Cible désignée :** Alice"));
    assert!(manager
        .send_initial_warning_if_needed(&vec![bot(9, "robot")], "Général")
        .is_none());
    let silent = VoiceChannelManager::new(config(None, false));
    assert!(silent
        .send_initial_warning_if_needed(&vec![user(11, "Alice")], "Général")
        .is_none());
}

#[test]
fn scheduled_warning_picks_its_headline_by_the_clock() {
    let members = vec![user(11, "Alice"), user(22, "Bob")];
    let tail = "\n\n<@11> <@22>\n\n⏳ **Vous avez 60 secondes** pour quitter le salon vocal volontairement !\n🤖 Sinon, déconnexion automatique...";
    assert_eq!(
        send_warning(1_700_000_000, &members, 60),
        format!("🚨 **ALERTE ÉVACUATION** 🚨{}", tail)
    );
    assert_eq!(
        send_warning(1_700_000_001, &members, 60),
        format!("⏰ **ATTENTION : Fermeture du salon vocal dans 60 secondes !**{}", tail)
    );
    assert_eq!(
        send_warning(2, &members, 60),
        format!("🎭 **DERNIER SERVICE** : Le salon va bientôt fermer !{}", tail)
    );
    assert_eq!(
        send_warning(3, &members, 60),
        format!("🚁 **ÉVACUATION D'URGENCE** : Préparez-vous à l'éjection !{}", tail)
    );
    assert_eq!(
        send_warning(4, &members, 60),
        format!("🎯 **T-MINUS 60 SECONDES** avant téléportation forcée !{}", tail)
    );
}

#[test]
fn cycles_are_summed_up_for_the_log_channel() {
    assert_eq!(
        scheduled_summary(2, 3, 42),
        "✅ **Nettoyage automatique terminé**\n2/3 utilisateurs déconnectés du salon <#42>"
    );
    assert_eq!(
        manual_summary("alice#0001", 5, 42),
        "🎯 **Déconnexion manuelle par alice#0001**\n5 utilisateurs déconnectés du salon <#42>"
    );
}

#[test]
fn occupants_are_those_connected_to_the_channel() {
    let presences = vec![
        VoicePresence { channel_id: Some(7), member: Some(user(1, "A")) },
        VoicePresence { channel_id: Some(8), member: Some(user(2, "B")) },
        VoicePresence { channel_id: None, member: Some(user(3, "C")) },
        VoicePresence { channel_id: Some(7), member: None },
        VoicePresence { channel_id: Some(7), member: Some(bot(5, "E")) },
        VoicePresence { channel_id: Some(7), member: Some(user(6, "F")) },
    ];
    let members = get_members_in_voice_channel(&presences, 7);
    let found: Vec<u64> = members.iter().map(|m| m.user_id).collect();
    assert_eq!(found, vec![1, 6]);
    assert_eq!(members[1].display_name, "F");
    assert!(get_members_in_voice_channel(&presences, 9).is_empty());
    assert!(get_members_in_voice_channel(&Vec::new(), 7).is_empty());
}

#[test]
fn random_pictures_are_among_those_of_their_kind() {
    let mut seen: Vec<&str> = Vec::new();
    for _ in 0..200 {
        let url = WarningManager::select_random_gif(WarningKind::Initial);
        assert!((0..WARNING_GIF_COUNT).any(|i| warning_gif(i) == url));
        if !seen.contains(&url) {
            seen.push(url);
        }
        let url = WarningManager::select_random_gif(WarningKind::Final);
        assert!((0..FINAL_WARNING_GIF_COUNT).any(|i| final_warning_gif(i) == url));
        let url = WarningManager::select_random_gif(WarningKind::Merciful);
        assert!((0..MERCIFUL_GIF_COUNT).any(|i| merciful_gif(i) == url));
    }
    assert!(seen.len() > 1);
    assert_eq!(warning_gif(99), warning_gif(WARNING_GIF_COUNT - 1));
}
