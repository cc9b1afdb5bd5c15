//! Cycles on the recurring schedule and on a moderator's command, who is
//! in the monitored channel, and what these cycles announce.

use vstd::prelude::*;
use vstd::string::*;
use crate::bot::cycle::{
    occupant_views, CyclePolicy, CycleRun, CycleRunView, Occupant, OccupantView,
};
use crate::bot::warning::{mention_line, mention_list};
use crate::config::settings::BotConfig;
use crate::utils::{decimal_string, decimal_text};

verus! {

/// How many headlines there are for the warning of a scheduled cycle.
pub const HEADLINE_COUNT: u64 = 5;

/// What the platform knows of one user's voice connection.
#[derive(Debug, Clone)]
pub struct VoicePresence {
    /// Identifier of the voice channel the user is connected to, if any.
    pub channel_id: Option<u64>,
    /// The user as a member of the guild, where the guild knows them.
    pub member: Option<Occupant>,
}

/// A voice connection as contracts speak of it.
pub struct VoicePresenceView {
    pub channel_id: Option<u64>,
    pub member: Option<OccupantView>,
}

impl View for VoicePresence {
    type V = VoicePresenceView;

    open spec fn view(&self) -> VoicePresenceView {
        VoicePresenceView {
            channel_id: self.channel_id,
            member: match self.member {
                Some(member) => Some(member@),
                None => None,
            },
        }
    }
}

/// The views of a list of voice connections, in order.
pub open spec fn presence_views(list: Seq<VoicePresence>) -> Seq<VoicePresenceView> {
    list.map_values(|p: VoicePresence| p@)
}

/// The occupant that a voice connection stands for in the channel
/// `channel_id`: the member, where the connection is to that channel, the
/// guild knows the member, and the member is no bot.
pub open spec fn connected_member(presence: VoicePresenceView, channel_id: u64) -> Option<
    OccupantView,
> {
    match presence.member {
        Some(member) => if presence.channel_id == Some(channel_id) && !member.is_bot {
            Some(member)
        } else {
            None
        },
        None => None,
    }
}

/// The occupants of the channel `channel_id` among `presences`, in order.
pub open spec fn members_in_channel(presences: Seq<VoicePresenceView>, channel_id: u64) -> Seq<
    OccupantView,
> {
    presences.filter_map(|p: VoicePresenceView| connected_member(p, channel_id))
}

/// The users connected to the voice channel `channel_id`: of the voice
/// connections given, those to that channel whose member is known and no
/// bot, in the order given.
pub fn get_members_in_voice_channel(presences: &Vec<VoicePresence>, channel_id: u64) -> (members:
    Vec<Occupant>)
    ensures
        occupant_views(members@) == members_in_channel(presence_views(presences@), channel_id),
{
    let ghost pick = |p: VoicePresenceView| connected_member(p, channel_id);
    let ghost views = presence_views(presences@);
    let mut members: Vec<Occupant> = Vec::new();
    let mut i: usize = 0;
    while i < presences.len()
        invariant
            i <= presences.len(),
            views == presence_views(presences@),
            pick == |p: VoicePresenceView| connected_member(p, channel_id),
            occupant_views(members@) == views.take(i as int).filter_map(pick),
        decreases presences.len() - i,
    {
        let presence = &presences[i];
        proof {
            views.lemma_filter_map_take_succ(pick, i as int);
        }
        match (&presence.channel_id, &presence.member) {
            (Some(connected_to), Some(member)) => {
                if *connected_to == channel_id && !member.is_bot {
                    members.push(member.duplicate());
                }
            },
            _ => {},
        }
        i = i + 1;
    }
    proof {
        assert(views.take(presences.len() as int) =~= views);
    }
    members
}

/// The headline with this index of the warning of a scheduled cycle.
pub open spec fn headline_text(index: int, delay: nat) -> Seq<char> {
    if index == 0 {
        "🚨 **ALERTE ÉVACUATION** 🚨"@
    } else if index == 1 {
        "⏰ **ATTENTION : Fermeture du salon vocal dans "@ + decimal_text(delay)
            + " secondes !**"@
    } else if index == 2 {
        "🎭 **DERNIER SERVICE** : Le salon va bientôt fermer !"@
    } else if index == 3 {
        "🚁 **ÉVACUATION D'URGENCE** : Préparez-vous à l'éjection !"@
    } else {
        "🎯 **T-MINUS "@ + decimal_text(delay) + " SECONDES** avant téléportation forcée !"@
    }
}

/// The warning of a scheduled cycle sent at `clock_seconds` to `members`:
/// the headline that the clock picks, the mentions, and the time left.
pub open spec fn scheduled_warning_text(
    clock_seconds: u64,
    members: Seq<OccupantView>,
    delay: nat,
) -> Seq<char> {
    headline_text(clock_seconds as int % 5, delay) + "\n\n"@ + mention_list(
        members,
        members.len() as int,
    ) + "\n\n⏳ **Vous avez "@ + decimal_text(delay)
        + " secondes** pour quitter le salon vocal volontairement !\n🤖 Sinon, déconnexion automatique..."@
}

/// What a scheduled cycle reports to the log channel when it has ended.
pub open spec fn scheduled_summary_text(disconnected: nat, present: nat, channel_id: u64) -> Seq<
    char,
> {
    "✅ **Nettoyage automatique terminé**\n"@ + decimal_text(disconnected) + "/"@ + decimal_text(
        present,
    ) + " utilisateurs déconnectés du salon <#"@ + decimal_text(channel_id as nat) + ">"@
}

/// What a cycle on a moderator's command reports to the log channel when
/// it has ended.
pub open spec fn manual_summary_text(initiator: Seq<char>, disconnected: nat, channel_id: u64) -> Seq<
    char,
> {
    "🎯 **Déconnexion manuelle par "@ + initiator + "**\n"@ + decimal_text(disconnected)
        + " utilisateurs déconnectés du salon <#"@ + decimal_text(channel_id as nat) + ">"@
}

/// The cycle to run on a tick of the recurring schedule: presence check,
/// warning where a warning channel is configured, the configured wait,
/// second presence check, eviction; in lenient mode it ends without
/// eviction.
pub fn execute_scheduled_kick(config: &BotConfig) -> (run: CycleRun)
    ensures
        run@ == CycleRunView::initial(CyclePolicy::interval_of(*config)),
        run@.well_formed(),
{
    CycleRun::new(CyclePolicy::interval(config))
}

/// The cycle to run on a moderator's command: presence check, then
/// eviction of whoever is there, without a warning.
pub fn execute_manual_kick(config: &BotConfig) -> (run: CycleRun)
    ensures
        run@ == CycleRunView::initial(CyclePolicy::manual_of(*config)),
        run@.well_formed(),
{
    CycleRun::new(CyclePolicy::manual(config))
}

/// The warning of a scheduled cycle sent at `clock_seconds`, seconds on
/// the caller's clock, to `members` who have `delay_seconds` left.
pub fn send_warning(clock_seconds: u64, members: &Vec<Occupant>, delay_seconds: u64) -> (text:
    String)
    ensures
        text@ == scheduled_warning_text(
            clock_seconds,
            occupant_views(members@),
            delay_seconds as nat,
        ),
{
    let index: u64 = clock_seconds % HEADLINE_COUNT;
    let delay = decimal_string(delay_seconds);
    let mut text = if index == 0 {
        String::from_str("🚨 **ALERTE ÉVACUATION** 🚨")
    } else if index == 1 {
        String::from_str("⏰ **ATTENTION : Fermeture du salon vocal dans ").concat(
            delay.as_str(),
        ).concat(" secondes !**")
    } else if index == 2 {
        String::from_str("🎭 **DERNIER SERVICE** : Le salon va bientôt fermer !")
    } else if index == 3 {
        String::from_str("🚁 **ÉVACUATION D'URGENCE** : Préparez-vous à l'éjection !")
    } else {
        String::from_str("🎯 **T-MINUS ").concat(delay.as_str()).concat(
            " SECONDES** avant téléportation forcée !",
        )
    };
    text.append("\n\n");
    text.append(mention_line(members).as_str());
    text.append("\n\n⏳ **Vous avez ");
    text.append(delay.as_str());
    text.append(
        " secondes** pour quitter le salon vocal volontairement !\n🤖 Sinon, déconnexion automatique...",
    );
    text
}

/// What a scheduled cycle reports to the log channel when it has ended:
/// how many of those present were disconnected from the channel.
pub fn scheduled_summary(disconnected: usize, present: usize, channel_id: u64) -> (text: String)
    ensures
        text@ == scheduled_summary_text(disconnected as nat, present as nat, channel_id),
{
    let mut text = String::from_str("✅ **Nettoyage automatique terminé**\n");
    text.append(decimal_string(disconnected as u64).as_str());
    text.append("/");
    text.append(decimal_string(present as u64).as_str());
    text.append(" utilisateurs déconnectés du salon <#");
    text.append(decimal_string(channel_id).as_str());
    text.append(">");
    text
}

/// What a cycle on the command of `initiator` reports to the log channel
/// when it has ended.
pub fn manual_summary(initiator: &str, disconnected: usize, channel_id: u64) -> (text: String)
    ensures
        text@ == manual_summary_text(initiator@, disconnected as nat, channel_id),
{
    let mut text = String::from_str("🎯 **Déconnexion manuelle par ");
    text.append(initiator);
    text.append("**\n");
    text.append(decimal_string(disconnected as u64).as_str());
    text.append(" utilisateurs déconnectés du salon <#");
    text.append(decimal_string(channel_id).as_str());
    text.append(">");
    text
}

} // verus!
