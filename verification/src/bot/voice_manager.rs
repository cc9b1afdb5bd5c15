//! Enforcement on the monitored voice channel: which cycle to run, whom a
//! warning concerns, and what to write to the log channel.

use vstd::prelude::*;
use vstd::string::*;
use crate::bot::cycle::{
    occupant_views, present_users, without_bots, CyclePolicy, CycleRun, CycleRunView, Occupant,
};
use crate::bot::warning::{WarningManager, WarningMessage};
use crate::config::settings::BotConfig;
use crate::error::BotError;

verus! {

/// What kind of channel an identifier names.
#[derive(Debug, Clone, Copy, PartialEq, Eq, Structural)]
pub enum ChannelKind {
    /// A voice channel of a guild.
    GuildVoice,
    /// Another channel of a guild.
    GuildOther,
    /// A channel outside any guild.
    Private,
}

/// The line that confirms an eviction in the log channel.
pub open spec fn disconnection_line(user_tag: Seq<char>, channel_name: Seq<char>) -> Seq<char> {
    "🔇 "@ + user_tag + " déconnecté du salon '"@ + channel_name + "' (couvre-feu)"@
}

/// A line for the log channel.
#[derive(Debug, Clone)]
pub struct LogLine {
    /// Identifier of the log channel.
    pub channel_id: u64,
    /// The line.
    pub text: String,
}

/// Watches one voice channel and disconnects its occupants.
#[derive(Debug)]
pub struct VoiceChannelManager {
    config: BotConfig,
    warning_manager: WarningManager,
}

impl VoiceChannelManager {
    #[verifier::type_invariant]
    spec fn agrees(self) -> bool {
        self.warning_manager.spec_config() == self.config
    }

    /// The settings that this manager goes by.
    pub closed spec fn spec_config(&self) -> BotConfig {
        self.config
    }

    /// A manager that goes by `config`.
    pub fn new(config: BotConfig) -> (manager: VoiceChannelManager)
        ensures
            manager.spec_config() == config,
    {
        let warning_manager = WarningManager::new(config.duplicate());
        VoiceChannelManager { config, warning_manager }
    }

    /// Tells whether the configured channel can be watched: it must be a
    /// voice channel of a guild.
    pub fn get_voice_channel(&self, kind: ChannelKind) -> (r: Result<(), BotError>)
        ensures
            match kind {
                ChannelKind::GuildVoice => r is Ok,
                ChannelKind::GuildOther => r matches Err(e) && e is InvalidChannelType,
                ChannelKind::Private => r matches Err(e) && e is NotGuildChannel,
            },
    {
        match kind {
            ChannelKind::GuildVoice => Ok(()),
            ChannelKind::GuildOther => Err(BotError::InvalidChannelType),
            ChannelKind::Private => Err(BotError::NotGuildChannel),
        }
    }

    /// The early warning for whoever of `members` is no bot: the framed
    /// first warning, or none where nobody is there or no warning channel
    /// is configured.
    pub fn send_initial_warning_if_needed(
        &self,
        members: &Vec<Occupant>,
        voice_channel_name: &str,
    ) -> (framed: Option<WarningMessage>)
        ensures
            framed is Some <==> present_users(occupant_views(members@)).len() > 0
                && self.spec_config().warning_channel_id is Some,
            framed matches Some(m) ==> {
                &&& Some(m.channel_id) == self.spec_config().warning_channel_id
                &&& m.title@ == crate::bot::warning::INITIAL_WARNING_TITLE@
                &&& m.colour == crate::bot::warning::orange()
                &&& m.footer@ == crate::bot::warning::footer_text(voice_channel_name@)
                &&& m.content@ == crate::bot::warning::greeting_text(
                    present_users(occupant_views(members@)),
                )
                &&& exists|index: int|
                    0 <= index < crate::bot::phrases::WARNING_MESSAGE_COUNT && m.description@
                        == #[trigger] crate::bot::warning::initial_warning_text(
                        index,
                        self.spec_config().warning_delay_seconds as nat,
                        self.spec_config().warning_only,
                        present_users(occupant_views(members@)),
                    )
                &&& exists|index: int|
                    0 <= index < crate::bot::phrases::WARNING_GIF_COUNT && m.image_url@
                        == #[trigger] crate::bot::phrases::warning_gif_text(index)
            },
    {
        proof {
            use_type_invariant(self);
        }
        let present = without_bots(members);
        self.warning_manager.send_initial_warning(&present, voice_channel_name)
    }

    /// The cycle to run at the curfew: presence check, final warning,
    /// short grace, second presence check, eviction; in lenient mode it
    /// ends without eviction.
    pub fn handle_curfew_time(&self) -> (run: CycleRun)
        ensures
            run@ == CycleRunView::initial(CyclePolicy::curfew_of(self.spec_config())),
            run@.well_formed(),
    {
        CycleRun::new(CyclePolicy::curfew(&self.config))
    }

    /// The cycle that checks the channel and disconnects whoever is there,
    /// without a warning.
    pub fn check_and_disconnect_users(&self) -> (run: CycleRun)
        ensures
            run@ == CycleRunView::initial(CyclePolicy::manual_of(self.spec_config())),
            run@.well_formed(),
    {
        CycleRun::new(CyclePolicy::manual(&self.config))
    }

    /// The cycle that disconnects the users of `members` one after the
    /// other; a failure with one of them does not keep it from the next.
    pub fn disconnect_members(&self, members: &Vec<Occupant>) -> (run: CycleRun)
        ensures
            run@ == CycleRunView::evicting(
                CyclePolicy::manual_of(self.spec_config()),
                occupant_views(members@),
            ),
            run@.well_formed(),
    {
        CycleRun::evicting(CyclePolicy::manual(&self.config), members)
    }

    /// The line that confirms the eviction of the user with this tag in
    /// the log channel; none where no log channel is configured.
    pub fn log_disconnection_to_channel(&self, user_tag: &str, channel_name: &str) -> (line:
        Option<LogLine>)
        ensures
            line is Some <==> self.spec_config().log_channel_id is Some,
            line matches Some(l) ==> Some(l.channel_id) == self.spec_config().log_channel_id
                && l.text@ == disconnection_line(user_tag@, channel_name@),
    {
        let channel_id = match self.config.log_channel_id {
            Some(id) => id,
            None => {
                return None;
            },
        };
        let mut text = String::from_str("🔇 ");
        text.append(user_tag);
        text.append(" déconnecté du salon '");
        text.append(channel_name);
        text.append("' (couvre-feu)");
        Some(LogLine { channel_id, text })
    }
}

} // verus!
