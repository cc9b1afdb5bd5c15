//! What the bot says before it acts: how a warning is put together.

use vstd::prelude::*;
use vstd::string::*;
use crate::bot::cycle::{occupant_views, Occupant, OccupantView, WarningKind};
use crate::bot::phrases;
use crate::config::settings::BotConfig;
use crate::utils::{decimal_string, decimal_text};

verus! {

/// Title of the first warning.
pub const INITIAL_WARNING_TITLE: &'static str = "🚨 ALERTE COUVRE-FEU 🚨";

/// Title of the final warning.
pub const FINAL_WARNING_TITLE: &'static str = "💀 SENTENCE FINALE 💀";

/// Title of the lenient message.
pub const MERCIFUL_TITLE: &'static str = "🌟 GRÂCE ACCORDÉE 🌟";

/// Last line of a first warning in lenient mode.
pub const INITIAL_ACTION_LENIENT: &'static str =
    "💌 *Mode gentil activé - Aucune déconnexion ne sera effectuée, ceci n'est qu'un rappel amical !*";

/// Last line of a first warning where eviction follows.
pub const INITIAL_ACTION_STRICT: &'static str =
    "⚠️ *Cette menace est bien réelle ! Déconnexion automatique programmée !*";

/// Last line of a final warning.
pub const FINAL_ACTION: &'static str =
    "🔥 *Vous avez eu votre chance... Maintenant c'est l'heure de payer !*";

/// Last line of a lenient message.
pub const MERCIFUL_ACTION: &'static str =
    "😇 *Profitez bien de cette clémence... Elle ne durera peut-être pas !*";

/// A colour by its red, green and blue parts.
#[derive(Debug, Clone, Copy, PartialEq, Eq, Structural)]
pub struct Colour {
    pub red: u8,
    pub green: u8,
    pub blue: u8,
}

/// Orange, the colour of the first warning.
pub open spec fn orange() -> Colour {
    Colour { red: 255, green: 165, blue: 0 }
}

/// Crimson, the colour of the final warning.
pub open spec fn crimson() -> Colour {
    Colour { red: 220, green: 20, blue: 60 }
}

/// Lime green, the colour of the lenient message.
pub open spec fn lime() -> Colour {
    Colour { red: 50, green: 205, blue: 50 }
}

/// A warning ready to be sent.
#[derive(Debug, Clone)]
pub struct WarningMessage {
    /// Identifier of the channel to send it to.
    pub channel_id: u64,
    /// Title of the framed part.
    pub title: String,
    /// Text of the framed part.
    pub description: String,
    /// Colour of the frame.
    pub colour: Colour,
    /// Address of the picture.
    pub image_url: String,
    /// Line under the framed part.
    pub footer: String,
    /// Text above the framed part: a greeting that mentions every occupant.
    pub content: String,
}

/// One line per occupant among the first `n` of `members`, each a bullet
/// and the name, with a line break between two lines.
pub open spec fn bullet_lines(members: Seq<OccupantView>, n: int) -> Seq<char>
    decreases n,
{
    if n <= 0 {
        Seq::empty()
    } else {
        (if n == 1 {
            bullet_lines(members, n - 1)
        } else {
            bullet_lines(members, n - 1) + "\n"@
        }) + "• "@ + members[n - 1].display_name
    }
}

/// Who is meant: the name alone for one occupant, a counted list of
/// bullets otherwise.
pub open spec fn user_list_text(members: Seq<OccupantView>) -> Seq<char> {
    if members.len() == 1 {
        "**Cible désignée :** "@ + members[0].display_name
    } else {
        "**Cibles désignées ("@ + decimal_text(members.len()) + ") :**\n"@ + bullet_lines(
            members,
            members.len() as int,
        )
    }
}

/// The mentions of the first `n` of `members`, a space between two.
pub open spec fn mention_list(members: Seq<OccupantView>, n: int) -> Seq<char>
    decreases n,
{
    if n <= 0 {
        Seq::empty()
    } else {
        (if n == 1 {
            mention_list(members, n - 1)
        } else {
            mention_list(members, n - 1) + " "@
        }) + "<@"@ + decimal_text(members[n - 1].user_id as nat) + ">"@
    }
}

/// The greeting that mentions every occupant.
pub open spec fn greeting_text(members: Seq<OccupantView>) -> Seq<char> {
    "👋 "@ + mention_list(members, members.len() as int)
}

/// The line under a warning about the channel with this name.
pub open spec fn footer_text(channel_name: Seq<char>) -> Seq<char> {
    "Salon concerné: "@ + channel_name + " | Bot LeKickerFou"@
}

/// The first warning with this index, for this delay and these occupants.
pub open spec fn initial_warning_text(
    index: int,
    delay: nat,
    lenient: bool,
    members: Seq<OccupantView>,
) -> Seq<char> {
    phrases::warning_opening_text(index) + decimal_text(delay) + phrases::warning_closing_text(
        index,
    ) + "\n\n"@ + user_list_text(members) + "\n\n"@ + (if lenient {
        INITIAL_ACTION_LENIENT@
    } else {
        INITIAL_ACTION_STRICT@
    })
}

/// The final warning with this index, for these occupants.
pub open spec fn final_warning_text(index: int, members: Seq<OccupantView>) -> Seq<char> {
    phrases::final_warning_message_text(index) + "\n\n"@ + user_list_text(members) + "\n\n"@
        + FINAL_ACTION@
}

/// The lenient message with this index, for these occupants.
pub open spec fn merciful_text(index: int, members: Seq<OccupantView>) -> Seq<char> {
    phrases::merciful_message_text(index) + "\n\n"@ + user_list_text(members) + "\n\n"@
        + MERCIFUL_ACTION@
}

/// Calls `rand::seq::IteratorRandom::choose` on the indices below `len`
/// with the generator that `rand::rng` hands out. Trusted: the index that
/// comes back is one of those offered.
#[verifier::external_body]
fn choose_index(len: usize) -> (index: usize)
    requires
        len > 0,
    ensures
        index < len,
{
    rand::seq::IteratorRandom::choose(0..len, &mut rand::rng()).unwrap_or(0)
}

/// The mentions of `members`, a space between two.
pub fn mention_line(members: &Vec<Occupant>) -> (text: String)
    ensures
        text@ == mention_list(occupant_views(members@), members@.len() as int),
{
    let ghost views = occupant_views(members@);
    let mut text = String::new();
    let mut i: usize = 0;
    while i < members.len()
        invariant
            i <= members.len(),
            views == occupant_views(members@),
            text@ == mention_list(views, i as int),
        decreases members.len() - i,
    {
        if i > 0 {
            text.append(" ");
        }
        text.append("<@");
        text.append(decimal_string(members[i].user_id).as_str());
        text.append(">");
        i = i + 1;
    }
    text
}

/// One line per occupant of `members`, each a bullet and the name.
pub fn bullet_list(members: &Vec<Occupant>) -> (text: String)
    ensures
        text@ == bullet_lines(occupant_views(members@), members@.len() as int),
{
    let ghost views = occupant_views(members@);
    let mut text = String::new();
    let mut i: usize = 0;
    while i < members.len()
        invariant
            i <= members.len(),
            views == occupant_views(members@),
            text@ == bullet_lines(views, i as int),
        decreases members.len() - i,
    {
        if i > 0 {
            text.append("\n");
        }
        text.append("• ");
        text.append(members[i].display_name.as_str());
        i = i + 1;
    }
    text
}

/// How many pictures there are for a warning of this kind.
pub open spec fn gif_count(kind: WarningKind) -> int {
    match kind {
        WarningKind::Initial => phrases::WARNING_GIF_COUNT as int,
        WarningKind::Final => phrases::FINAL_WARNING_GIF_COUNT as int,
        WarningKind::Merciful => phrases::MERCIFUL_GIF_COUNT as int,
    }
}

/// The picture with this index for a warning of this kind.
pub open spec fn gif_text(kind: WarningKind, index: int) -> Seq<char> {
    match kind {
        WarningKind::Initial => phrases::warning_gif_text(index),
        WarningKind::Final => phrases::final_warning_gif_text(index),
        WarningKind::Merciful => phrases::merciful_gif_text(index),
    }
}

/// Puts warnings together.
#[derive(Debug, Clone)]
pub struct WarningManager {
    config: BotConfig,
}

impl WarningManager {
    /// The settings that the warnings go by.
    pub closed spec fn spec_config(&self) -> BotConfig {
        self.config
    }

    /// A maker of warnings that go by `config`.
    pub fn new(config: BotConfig) -> (manager: WarningManager)
        ensures
            manager.spec_config() == config,
    {
        WarningManager { config }
    }

    /// Who is meant by a warning to `members`.
    pub fn format_user_list(&self, members: &Vec<Occupant>) -> (text: String)
        ensures
            text@ == user_list_text(occupant_views(members@)),
    {
        if members.len() == 1 {
            return String::from_str("**Cible désignée :** ").concat(
                members[0].display_name.as_str(),
            );
        }
        let mut text = String::from_str("**Cibles désignées (");
        text.append(decimal_string(members.len() as u64).as_str());
        text.append(") :**\n");
        text.append(bullet_list(members).as_str());
        text
    }

    /// The greeting that mentions every one of `members`.
    pub fn greeting(&self, members: &Vec<Occupant>) -> (text: String)
        ensures
            text@ == greeting_text(occupant_views(members@)),
    {
        String::from_str("👋 ").concat(mention_line(members).as_str())
    }

    /// The first warning with this index, for `members`; an index past the
    /// last stands for the last.
    pub fn initial_warning_message(&self, index: usize, members: &Vec<Occupant>) -> (text: String)
        ensures
            text@ == initial_warning_text(
                index as int,
                self.spec_config().warning_delay_seconds as nat,
                self.spec_config().warning_only,
                occupant_views(members@),
            ),
    {
        let mut text = String::from_str(phrases::warning_opening(index));
        text.append(decimal_string(self.config.warning_delay_seconds).as_str());
        text.append(phrases::warning_closing(index));
        text.append("\n\n");
        text.append(self.format_user_list(members).as_str());
        text.append("\n\n");
        if self.config.is_warning_only_mode() {
            text.append(INITIAL_ACTION_LENIENT);
        } else {
            text.append(INITIAL_ACTION_STRICT);
        }
        text
    }

    /// The final warning with this index, for `members`; an index past the
    /// last stands for the last.
    pub fn final_warning_message(&self, index: usize, members: &Vec<Occupant>) -> (text: String)
        ensures
            text@ == final_warning_text(index as int, occupant_views(members@)),
    {
        let mut text = String::from_str(phrases::final_warning_message(index));
        text.append("\n\n");
        text.append(self.format_user_list(members).as_str());
        text.append("\n\n");
        text.append(FINAL_ACTION);
        text
    }

    /// The lenient message with this index, for `members`; an index past
    /// the last stands for the last.
    pub fn merciful_message(&self, index: usize, members: &Vec<Occupant>) -> (text: String)
        ensures
            text@ == merciful_text(index as int, occupant_views(members@)),
    {
        let mut text = String::from_str(phrases::merciful_message(index));
        text.append("\n\n");
        text.append(self.format_user_list(members).as_str());
        text.append("\n\n");
        text.append(MERCIFUL_ACTION);
        text
    }

    /// A first warning for `members`, picked at random among those there are.
    pub fn generate_initial_warning_message(&self, members: &Vec<Occupant>) -> (text: String)
        ensures
            exists|index: int|
                0 <= index < phrases::WARNING_MESSAGE_COUNT && text@
                    == #[trigger] initial_warning_text(
                    index,
                    self.spec_config().warning_delay_seconds as nat,
                    self.spec_config().warning_only,
                    occupant_views(members@),
                ),
    {
        let index = choose_index(phrases::WARNING_MESSAGE_COUNT);
        self.initial_warning_message(index, members)
    }

    /// A final warning for `members`, picked at random among those there are.
    pub fn generate_final_warning_message(&self, members: &Vec<Occupant>) -> (text: String)
        ensures
            exists|index: int|
                0 <= index < phrases::FINAL_WARNING_MESSAGE_COUNT && text@
                    == #[trigger] final_warning_text(index, occupant_views(members@)),
    {
        let index = choose_index(phrases::FINAL_WARNING_MESSAGE_COUNT);
        self.final_warning_message(index, members)
    }

    /// A lenient message for `members`, picked at random among those there are.
    pub fn generate_merciful_message(&self, members: &Vec<Occupant>) -> (text: String)
        ensures
            exists|index: int|
                0 <= index < phrases::MERCIFUL_MESSAGE_COUNT && text@ == #[trigger] merciful_text(
                    index,
                    occupant_views(members@),
                ),
    {
        let index = choose_index(phrases::MERCIFUL_MESSAGE_COUNT);
        self.merciful_message(index, members)
    }

    /// A picture for a warning of this kind, picked at random among those
    /// there are.
    pub fn select_random_gif(kind: WarningKind) -> (url: &'static str)
        ensures
            exists|index: int| 0 <= index < gif_count(kind) && url@ == #[trigger] gif_text(kind, index),
    {
        match kind {
            WarningKind::Initial => {
                let index = choose_index(phrases::WARNING_GIF_COUNT);
                let url = phrases::warning_gif(index);
                assert(url@ == gif_text(kind, index as int));
                url
            },
            WarningKind::Final => {
                let index = choose_index(phrases::FINAL_WARNING_GIF_COUNT);
                let url = phrases::final_warning_gif(index);
                assert(url@ == gif_text(kind, index as int));
                url
            },
            WarningKind::Merciful => {
                let index = choose_index(phrases::MERCIFUL_GIF_COUNT);
                let url = phrases::merciful_gif(index);
                assert(url@ == gif_text(kind, index as int));
                url
            },
        }
    }

    /// Frames a warning for the warning channel: the greeting that mentions
    /// every one of `members` above, the footer naming the voice channel
    /// below. None where no warning channel is configured.
    pub fn send_warning_embed(
        &self,
        members: &Vec<Occupant>,
        voice_channel_name: &str,
        title: &str,
        message: String,
        gif_url: &str,
        colour: Colour,
    ) -> (framed: Option<WarningMessage>)
        ensures
            framed is Some <==> self.spec_config().warning_channel_id is Some,
            framed matches Some(m) ==> {
                &&& Some(m.channel_id) == self.spec_config().warning_channel_id
                &&& m.title@ == title@
                &&& m.description@ == message@
                &&& m.colour == colour
                &&& m.image_url@ == gif_url@
                &&& m.footer@ == footer_text(voice_channel_name@)
                &&& m.content@ == greeting_text(occupant_views(members@))
            },
    {
        let channel_id = match self.config.warning_channel_id {
            Some(id) => id,
            None => {
                return None;
            },
        };
        let mut footer = String::from_str("Salon concerné: ");
        footer.append(voice_channel_name);
        footer.append(" | Bot LeKickerFou");
        Some(
            WarningMessage {
                channel_id,
                title: String::from_str(title),
                description: message,
                colour,
                image_url: String::from_str(gif_url),
                footer,
                content: self.greeting(members),
            },
        )
    }

    /// The first warning to `members` of the voice channel with this name.
    /// None where nobody is there or no warning channel is configured.
    pub fn send_initial_warning(&self, members: &Vec<Occupant>, voice_channel_name: &str) -> (framed:
        Option<WarningMessage>)
        ensures
            framed is Some <==> members@.len() > 0 && self.spec_config().warning_channel_id
                is Some,
            framed matches Some(m) ==> {
                &&& Some(m.channel_id) == self.spec_config().warning_channel_id
                &&& m.title@ == INITIAL_WARNING_TITLE@
                &&& m.colour == orange()
                &&& m.footer@ == footer_text(voice_channel_name@)
                &&& m.content@ == greeting_text(occupant_views(members@))
                &&& exists|index: int|
                    0 <= index < phrases::WARNING_MESSAGE_COUNT && m.description@
                        == #[trigger] initial_warning_text(
                        index,
                        self.spec_config().warning_delay_seconds as nat,
                        self.spec_config().warning_only,
                        occupant_views(members@),
                    )
                &&& exists|index: int|
                    0 <= index < phrases::WARNING_GIF_COUNT && m.image_url@
                        == #[trigger] phrases::warning_gif_text(index)
            },
    {
        if members.len() == 0 {
            return None;
        }
        let message = self.generate_initial_warning_message(members);
        let gif = Self::select_random_gif(WarningKind::Initial);
        self.send_warning_embed(
            members,
            voice_channel_name,
            INITIAL_WARNING_TITLE,
            message,
            gif,
            Colour { red: 255, green: 165, blue: 0 },
        )
    }

    /// The final warning to `members` of the voice channel with this name.
    /// None where nobody is there or no warning channel is configured.
    pub fn send_final_warning(&self, members: &Vec<Occupant>, voice_channel_name: &str) -> (framed:
        Option<WarningMessage>)
        ensures
            framed is Some <==> members@.len() > 0 && self.spec_config().warning_channel_id
                is Some,
            framed matches Some(m) ==> {
                &&& Some(m.channel_id) == self.spec_config().warning_channel_id
                &&& m.title@ == FINAL_WARNING_TITLE@
                &&& m.colour == crimson()
                &&& m.footer@ == footer_text(voice_channel_name@)
                &&& m.content@ == greeting_text(occupant_views(members@))
                &&& exists|index: int|
                    0 <= index < phrases::FINAL_WARNING_MESSAGE_COUNT && m.description@
                        == #[trigger] final_warning_text(index, occupant_views(members@))
                &&& exists|index: int|
                    0 <= index < phrases::FINAL_WARNING_GIF_COUNT && m.image_url@
                        == #[trigger] phrases::final_warning_gif_text(index)
            },
    {
        if members.len() == 0 {
            return None;
        }
        let message = self.generate_final_warning_message(members);
        let gif = Self::select_random_gif(WarningKind::Final);
        self.send_warning_embed(
            members,
            voice_channel_name,
            FINAL_WARNING_TITLE,
            message,
            gif,
            Colour { red: 220, green: 20, blue: 60 },
        )
    }

    /// The lenient message to `members` of the voice channel with this
    /// name. None where nobody is there or no warning channel is configured.
    pub fn send_merciful_message(&self, members: &Vec<Occupant>, voice_channel_name: &str) -> (framed:
        Option<WarningMessage>)
        ensures
            framed is Some <==> members@.len() > 0 && self.spec_config().warning_channel_id
                is Some,
            framed matches Some(m) ==> {
                &&& Some(m.channel_id) == self.spec_config().warning_channel_id
                &&& m.title@ == MERCIFUL_TITLE@
                &&& m.colour == lime()
                &&& m.footer@ == footer_text(voice_channel_name@)
                &&& m.content@ == greeting_text(occupant_views(members@))
                &&& exists|index: int|
                    0 <= index < phrases::MERCIFUL_MESSAGE_COUNT && m.description@
                        == #[trigger] merciful_text(index, occupant_views(members@))
                &&& exists|index: int|
                    0 <= index < phrases::MERCIFUL_GIF_COUNT && m.image_url@
                        == #[trigger] phrases::merciful_gif_text(index)
            },
    {
        if members.len() == 0 {
            return None;
        }
        let message = self.generate_merciful_message(members);
        let gif = Self::select_random_gif(WarningKind::Merciful);
        self.send_warning_embed(
            members,
            voice_channel_name,
            MERCIFUL_TITLE,
            message,
            gif,
            Colour { red: 50, green: 205, blue: 50 },
        )
    }

    /// Seconds to wait after a warning before acting.
    pub fn wait_warning_delay(&self) -> (seconds: u64)
        ensures
            seconds == self.spec_config().warning_delay_seconds,
    {
        self.config.warning_delay()
    }
}

} // verus!
