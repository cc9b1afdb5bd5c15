use lekickerfou::bot::cycle::{
    without_bots, CycleAction, CycleEvent, CycleKind, CyclePhase, CyclePolicy, CycleRun,
    Occupant, WarningKind, FINAL_GRACE_SECONDS,
};
use lekickerfou::bot::voice_manager::{ChannelKind, VoiceChannelManager};
use lekickerfou::config::settings::{BotConfig, CurfewTime};
use lekickerfou::error::BotError;
use lekickerfou::scheduler::{execute_manual_kick, execute_scheduled_kick};

fn user(id: u64, name: &str) -> Occupant {
    Occupant { user_id: id, display_name: name.to_string(), is_bot: false }
}

fn bot(id: u64, name: &str) -> Occupant {
    Occupant { user_id: id, display_name: name.to_string(), is_bot: true }
}

fn config(warning_channel: Option<u64>, log_channel: Option<u64>, lenient: bool) -> BotConfig {
    BotConfig {
        voice_channel_id: 1,
        log_channel_id: log_channel,
        warning_channel_id: warning_channel,
        curfew_time: CurfewTime::new(23, 0),
        warning_delay_seconds: 600,
        warning_only: lenient,
        cron_schedule: "0 * * * * *".to_string(),
    }
}

fn ids(run: &CycleRun) -> Vec<u64> {
    run.occupants().iter().map(|o| o.user_id).collect()
}

#[test]
fn bots_are_left_out_of_a_snapshot() {
    let present = without_bots(&vec![user(1, "A"), bot(2, "B"), user(3, "C"), bot(4, "D")]);
    let kept: Vec<u64> = present.iter().map(|o| o.user_id).collect();
    assert_eq!(kept, vec![1, 3]);
    assert_eq!(present[1].display_name, "C");
    assert!(without_bots(&Vec::new()).is_empty());
}

#[test]
fn policies_follow_the_settings() {
    let c = config(Some(5), None, true);
    let curfew = CyclePolicy::curfew(&c);
    assert_eq!(curfew.kind, CycleKind::Curfew);
    assert!(curfew.warnings_enabled);
    assert!(curfew.warning_only);
    assert!(!curfew.confirm_evictions);
    assert_eq!(curfew.wait_seconds, 10);
    assert_eq!(FINAL_GRACE_SECONDS, 10);
    assert_eq!(curfew.warning_kind(), WarningKind::Merciful);
    let interval = CyclePolicy::interval(&config(None, Some(9), false));
    assert_eq!(interval.kind, CycleKind::Interval);
    assert!(!interval.warnings_enabled);
    assert!(interval.confirm_evictions);
    assert_eq!(interval.wait_seconds, 600);
    assert_eq!(interval.warning_kind(), WarningKind::Initial);
    let manual = CyclePolicy::manual(&c);
    assert_eq!(manual.kind, CycleKind::Manual);
    assert_eq!(manual.wait_seconds, 0);
    assert_eq!(CyclePolicy::curfew(&config(Some(5), None, false)).warning_kind(), WarningKind::Final);
}

#[test]
fn a_new_cycle_waits_for_its_trigger() {
    let run = CycleRun::new(CyclePolicy::curfew(&config(Some(5), None, false)));
    assert_eq!(run.phase(), CyclePhase::Idle);
    assert_eq!(run.pending_action(), CycleAction::AwaitStart);
    assert!(!run.is_finished());
    assert!(run.outcome().is_none());
    assert_eq!(run.evicted_count(), 0);
    assert_eq!(run.warnings_sent(), 0);
    assert!(run.occupants().is_empty());
    assert!(run.failures().is_empty());
    let run = run.advance(CycleEvent::WaitElapsed);
    assert_eq!(run.phase(), CyclePhase::Idle);
    let run = run.advance(CycleEvent::Start);
    assert_eq!(run.phase(), CyclePhase::PresenceCheck);
    assert_eq!(run.pending_action(), CycleAction::ReadPresence);
}

#[test]
fn empty_channel_ends_empty_whatever_the_mode() {
    for lenient in [false, true] {
        for warning in [None, Some(5)] {
            for policy in [
                CyclePolicy::curfew(&config(warning, Some(9), lenient)),
                CyclePolicy::interval(&config(warning, Some(9), lenient)),
                CyclePolicy::manual(&config(warning, Some(9), lenient)),
            ] {
                let run = CycleRun::new(policy)
                    .advance(CycleEvent::Start)
                    .advance(CycleEvent::Presence(Ok(vec![bot(7, "robot")])));
                assert_eq!(run.phase(), CyclePhase::DoneEmpty);
                assert!(run.is_finished());
                assert_eq!(run.pending_action(), CycleAction::Finish);
                assert_eq!(run.warnings_sent(), 0);
                assert_eq!(run.warned_count(), 0);
                assert_eq!(run.evicted_count(), 0);
                assert!(run.failures().is_empty());
                let again = run.advance(CycleEvent::Start);
                assert_eq!(again.phase(), CyclePhase::DoneEmpty);
            }
        }
    }
}

#[test]
fn unreadable_presence_aborts_the_cycle() {
    let run = CycleRun::new(CyclePolicy::curfew(&config(Some(5), None, false)))
        .advance(CycleEvent::Start)
        .advance(CycleEvent::Presence(Err("no cache".to_string())));
    assert_eq!(run.phase(), CyclePhase::Aborted);
    assert!(run.is_finished());
    assert_eq!(run.evicted_count(), 0);
    match run.outcome() {
        Some(Err(BotError::DiscordError(cause))) => assert_eq!(cause, "no cache"),
        other => panic!("unexpected outcome: {:?}", other),
    }

    let run = CycleRun::new(CyclePolicy::curfew(&config(Some(5), None, false)))
        .advance(CycleEvent::Start)
        .advance(CycleEvent::Presence(Ok(vec![user(1, "A")])))
        .advance(CycleEvent::WarningResult(true))
        .advance(CycleEvent::WaitElapsed)
        .advance(CycleEvent::Presence(Err("no cache".to_string())));
    assert_eq!(run.phase(), CyclePhase::Aborted);
    assert_eq!(run.warnings_sent(), 1);
    assert_eq!(run.evicted_count(), 0);
}

#[test]
fn curfew_scenario_evicts_both_after_final_warning() {
    let manager = VoiceChannelManager::new(config(Some(5), None, false));
    let run = manager.handle_curfew_time();
    let run = run.advance(CycleEvent::Start);
    let run = run.advance(CycleEvent::Presence(Ok(vec![user(1, "A"), user(2, "B")])));
    assert_eq!(run.phase(), CyclePhase::WarningPhase);
    assert_eq!(run.pending_action(), CycleAction::SendWarning(WarningKind::Final));
    let run = run.advance(CycleEvent::WarningResult(true));
    assert_eq!(run.phase(), CyclePhase::Waiting);
    assert_eq!(run.pending_action(), CycleAction::Wait(10));
    let run = run.advance(CycleEvent::WaitElapsed);
    assert_eq!(run.phase(), CyclePhase::Recheck);
    assert_eq!(run.pending_action(), CycleAction::ReadPresence);
    let run = run.advance(CycleEvent::Presence(Ok(vec![user(1, "A"), user(2, "B")])));
    assert_eq!(run.phase(), CyclePhase::Evicting);
    assert_eq!(run.pending_action(), CycleAction::Disconnect(1));
    let run = run.advance(CycleEvent::DisconnectResult(Ok(())));
    assert_eq!(run.pending_action(), CycleAction::Disconnect(2));
    let run = run.advance(CycleEvent::DisconnectResult(Ok(())));
    assert_eq!(run.phase(), CyclePhase::Done);
    assert_eq!(run.pending_action(), CycleAction::Finish);
    assert_eq!(run.evicted_count(), 2);
    assert_eq!(run.failures().len(), 0);
    assert_eq!(run.warnings_sent(), 1);
    assert_eq!(run.warned_count(), 2);
}

#[test]
fn lenient_curfew_scenario_ends_lenient_whoever_remains() {
    for remaining in [vec![], vec![user(1, "A")], vec![user(1, "A"), user(2, "B")]] {
        let manager = VoiceChannelManager::new(config(Some(5), Some(9), true));
        let run = manager
            .handle_curfew_time()
            .advance(CycleEvent::Start)
            .advance(CycleEvent::Presence(Ok(vec![user(1, "A"), user(2, "B")])));
        assert_eq!(run.pending_action(), CycleAction::SendWarning(WarningKind::Merciful));
        let run = run
            .advance(CycleEvent::WarningResult(true))
            .advance(CycleEvent::WaitElapsed)
            .advance(CycleEvent::Presence(Ok(remaining)));
        assert_eq!(run.phase(), CyclePhase::DoneLenient);
        assert_eq!(run.pending_action(), CycleAction::Finish);
        assert_eq!(run.evicted_count(), 0);
        assert_eq!(run.warnings_sent(), 1);
        let run = run.advance(CycleEvent::DisconnectResult(Ok(())));
        assert_eq!(run.phase(), CyclePhase::DoneLenient);
        assert_eq!(run.evicted_count(), 0);
    }
}

#[test]
fn lenient_mode_never_asks_for_a_disconnection() {
    let scripts: Vec<Vec<u8>> = vec![
        vec![0, 1, 2, 3, 1, 4, 4, 5],
        vec![0, 1, 6, 4, 4],
        vec![0, 1, 4, 2, 3, 1],
        vec![4, 0, 1, 2, 4, 3, 4, 1, 4],
    ];
    for warning in [None, Some(5)] {
        for script in &scripts {
            for policy in [
                CyclePolicy::curfew(&config(warning, Some(9), true)),
                CyclePolicy::interval(&config(warning, Some(9), true)),
            ] {
                let mut run = CycleRun::new(policy);
                for step in script {
                    let event = match *step {
                        0 => CycleEvent::Start,
                        1 => CycleEvent::Presence(Ok(vec![user(1, "A"), user(2, "B")])),
                        2 => CycleEvent::WarningResult(true),
                        3 => CycleEvent::WaitElapsed,
                        4 => CycleEvent::DisconnectResult(Ok(())),
                        5 => CycleEvent::ConfirmationResult(true),
                        _ => CycleEvent::WarningResult(false),
                    };
                    run = run.advance(event);
                    assert!(!matches!(run.pending_action(), CycleAction::Disconnect(_)));
                    assert!(!matches!(run.pending_action(), CycleAction::Confirm(_)));
                    assert_ne!(run.phase(), CyclePhase::Evicting);
                    assert_eq!(run.evicted_count(), 0);
                }
            }
        }
    }
}

#[test]
fn lenient_mode_without_warning_channel_ends_lenient() {
    let run = CycleRun::new(CyclePolicy::curfew(&config(None, None, true)))
        .advance(CycleEvent::Start)
        .advance(CycleEvent::Presence(Ok(vec![user(1, "A")])));
    assert_eq!(run.phase(), CyclePhase::DoneLenient);
    assert_eq!(run.evicted_count(), 0);
    assert_eq!(run.warnings_sent(), 0);
}

#[test]
fn failed_warning_degrades_to_eviction_unless_lenient() {
    let run = CycleRun::new(CyclePolicy::curfew(&config(Some(5), None, false)))
        .advance(CycleEvent::Start)
        .advance(CycleEvent::Presence(Ok(vec![user(1, "A")])))
        .advance(CycleEvent::WarningResult(false));
    assert_eq!(run.phase(), CyclePhase::Evicting);
    assert_eq!(run.pending_action(), CycleAction::Disconnect(1));
    assert_eq!(run.warnings_sent(), 0);

    let run = CycleRun::new(CyclePolicy::curfew(&config(Some(5), None, true)))
        .advance(CycleEvent::Start)
        .advance(CycleEvent::Presence(Ok(vec![user(1, "A")])))
        .advance(CycleEvent::WarningResult(false));
    assert_eq!(run.phase(), CyclePhase::DoneLenient);
    assert_eq!(run.evicted_count(), 0);
}

#[test]
fn without_warning_channel_eviction_is_direct() {
    let run = CycleRun::new(CyclePolicy::curfew(&config(None, None, false)))
        .advance(CycleEvent::Start)
        .advance(CycleEvent::Presence(Ok(vec![user(4, "D"), bot(5, "E")])));
    assert_eq!(run.phase(), CyclePhase::Evicting);
    assert_eq!(run.pending_action(), CycleAction::Disconnect(4));
    let run = run.advance(CycleEvent::DisconnectResult(Ok(())));
    assert_eq!(run.phase(), CyclePhase::Done);
    assert_eq!(run.evicted_count(), 1);
}

#[test]
fn recheck_replaces_the_set_seen_before_the_wait() {
    let run = CycleRun::new(CyclePolicy::curfew(&config(Some(5), None, false)))
        .advance(CycleEvent::Start)
        .advance(CycleEvent::Presence(Ok(vec![user(1, "A"), user(2, "B")])));
    assert_eq!(ids(&run), vec![1, 2]);
    let run = run
        .advance(CycleEvent::WarningResult(true))
        .advance(CycleEvent::WaitElapsed)
        .advance(CycleEvent::Presence(Ok(vec![user(2, "B")])));
    assert_eq!(ids(&run), vec![2]);
    assert_eq!(run.warned_count(), 2);
    assert_eq!(run.pending_action(), CycleAction::Disconnect(2));
    let run = run.advance(CycleEvent::DisconnectResult(Ok(())));
    assert_eq!(run.phase(), CyclePhase::Done);
    assert_eq!(run.evicted_count(), 1);
    assert_eq!(ids(&run), vec![2]);
}

#[test]
fn everybody_gone_at_recheck_ends_self_resolved() {
    let run = CycleRun::new(CyclePolicy::interval(&config(Some(5), None, false)))
        .advance(CycleEvent::Start)
        .advance(CycleEvent::Presence(Ok(vec![user(1, "A")])));
    assert_eq!(run.pending_action(), CycleAction::SendWarning(WarningKind::Initial));
    let run = run.advance(CycleEvent::WarningResult(true));
    assert_eq!(run.pending_action(), CycleAction::Wait(600));
    let run = run
        .advance(CycleEvent::WaitElapsed)
        .advance(CycleEvent::Presence(Ok(vec![bot(3, "robot")])));
    assert_eq!(run.phase(), CyclePhase::DoneSelfResolved);
    assert_eq!(run.evicted_count(), 0);
    assert!(run.occupants().is_empty());
}

#[test]
fn one_failure_does_not_stop_the_others() {
    let manager = VoiceChannelManager::new(config(None, None, false));
    let run = manager.disconnect_members(&vec![user(1, "A"), user(2, "B"), user(3, "C")]);
    assert_eq!(run.phase(), CyclePhase::Evicting);
    assert_eq!(run.pending_action(), CycleAction::Disconnect(1));
    let run = run.advance(CycleEvent::DisconnectResult(Ok(())));
    assert_eq!(run.pending_action(), CycleAction::Disconnect(2));
    let run = run.advance(CycleEvent::DisconnectResult(Err("missing permission".to_string())));
    assert_eq!(run.phase(), CyclePhase::Evicting);
    assert_eq!(run.pending_action(), CycleAction::Disconnect(3));
    assert_eq!(run.evicted_count(), 1);
    let run = run.advance(CycleEvent::DisconnectResult(Ok(())));
    assert_eq!(run.phase(), CyclePhase::Done);
    assert_eq!(run.evicted_count(), 2);
    assert!(matches!(run.outcome(), Some(Ok(2))));
    assert_eq!(run.failures().len(), 1);
    assert_eq!(run.failures()[0].user_id, 2);
    assert_eq!(run.failures()[0].display_name, "B");
    assert_eq!(run.failures()[0].error, "missing permission");
}

#[test]
fn every_failure_is_recorded_in_order() {
    let manager = VoiceChannelManager::new(config(None, None, false));
    let run = manager
        .disconnect_members(&vec![user(1, "A"), user(2, "B")])
        .advance(CycleEvent::DisconnectResult(Err("first".to_string())))
        .advance(CycleEvent::DisconnectResult(Err("second".to_string())));
    assert_eq!(run.phase(), CyclePhase::Done);
    assert_eq!(run.evicted_count(), 0);
    let errors: Vec<&str> = run.failures().iter().map(|f| f.error.as_str()).collect();
    assert_eq!(errors, vec!["first", "second"]);
    let nobody = manager.disconnect_members(&vec![bot(1, "robot")]);
    assert_eq!(nobody.phase(), CyclePhase::DoneEmpty);
}

#[test]
fn evictions_are_confirmed_where_a_log_channel_is_set() {
    let run = CycleRun::new(CyclePolicy::manual(&config(None, Some(9), false)))
        .advance(CycleEvent::Start)
        .advance(CycleEvent::Presence(Ok(vec![user(1, "A"), user(2, "B")])));
    assert_eq!(run.pending_action(), CycleAction::Disconnect(1));
    let run = run.advance(CycleEvent::DisconnectResult(Ok(())));
    assert_eq!(run.phase(), CyclePhase::Confirming);
    assert_eq!(run.pending_action(), CycleAction::Confirm(1));
    assert_eq!(run.evicted_count(), 1);
    let run = run.advance(CycleEvent::ConfirmationResult(false));
    assert_eq!(run.pending_action(), CycleAction::Disconnect(2));
    assert_eq!(run.evicted_count(), 1);
    let run = run.advance(CycleEvent::DisconnectResult(Err("gone".to_string())));
    assert_eq!(run.phase(), CyclePhase::Done);
    assert_eq!(run.evicted_count(), 1);
    assert_eq!(run.failures().len(), 1);
}

#[test]
fn manual_cycle_evicts_without_warning_even_in_lenient_mode() {
    let run = execute_manual_kick(&config(Some(5), None, true))
        .advance(CycleEvent::Start)
        .advance(CycleEvent::Presence(Ok(vec![user(1, "A")])));
    assert_eq!(run.policy().kind, CycleKind::Manual);
    assert_eq!(run.phase(), CyclePhase::Evicting);
    let direct = VoiceChannelManager::new(config(Some(5), None, false)).check_and_disconnect_users();
    assert_eq!(direct.policy().kind, CycleKind::Manual);
    let scheduled = execute_scheduled_kick(&config(Some(5), None, false));
    assert_eq!(scheduled.policy().kind, CycleKind::Interval);
    assert_eq!(scheduled.policy().wait_seconds, 600);
}

#[test]
fn only_guild_voice_channels_can_be_watched() {
    let manager = VoiceChannelManager::new(config(None, None, false));
    assert!(manager.get_voice_channel(ChannelKind::GuildVoice).is_ok());
    assert!(matches!(
        manager.get_voice_channel(ChannelKind::GuildOther),
        Err(BotError::InvalidChannelType)
    ));
    assert!(matches!(
        manager.get_voice_channel(ChannelKind::Private),
        Err(BotError::NotGuildChannel)
    ));
}

#[test]
fn eviction_is_confirmed_in_the_log_channel() {
    let manager = VoiceChannelManager::new(config(None, Some(9), false));
    let line = manager.log_disconnection_to_channel("alice#0001", "Général").unwrap();
    assert_eq!(line.channel_id, 9);
    assert_eq!(line.text, "🔇 alice#0001 déconnecté du salon 'Général' (couvre-feu)");
    let silent = VoiceChannelManager::new(config(None, None, false));
    assert!(silent.log_disconnection_to_channel("alice#0001", "Général").is_none());
}
