//! Error values reported by the library.

use vstd::prelude::*;
use vstd::string::*;

verus! {

/// What can go wrong while configuring or running the bot.
#[derive(Debug, Clone)]
pub enum BotError {
    /// The configuration holds a value that cannot be used.
    InvalidConfig(String),
    /// A required configuration value is absent.
    MissingConfig(String),
    /// The chat platform reported a failure.
    DiscordError(String),
    /// The caller is not allowed to do what was asked.
    PermissionError(String),
    /// The monitored channel is not a voice channel.
    InvalidChannelType,
    /// The monitored channel does not belong to a guild.
    NotGuildChannel,
}

impl BotError {
    /// The text shown to the operator for this error.
    pub open spec fn spec_message(self) -> Seq<char> {
        match self {
            BotError::InvalidConfig(msg) => "Configuration invalide: "@ + msg@,
            BotError::MissingConfig(msg) => "Configuration manquante: "@ + msg@,
            BotError::DiscordError(msg) => "Erreur Discord: "@ + msg@,
            BotError::PermissionError(msg) => "Erreur de permission: "@ + msg@,
            BotError::InvalidChannelType => "Le salon n'est pas un salon vocal"@,
            BotError::NotGuildChannel => "Le salon n'est pas un salon de serveur"@,
        }
    }

    /// Renders the error as the operator sees it.
    pub fn message(&self) -> (text: String)
        ensures
            text@ == self.spec_message(),
    {
        match self {
            BotError::InvalidConfig(msg) => String::from_str("Configuration invalide: ").concat(
                msg.as_str(),
            ),
            BotError::MissingConfig(msg) => String::from_str("Configuration manquante: ").concat(
                msg.as_str(),
            ),
            BotError::DiscordError(msg) => String::from_str("Erreur Discord: ").concat(
                msg.as_str(),
            ),
            BotError::PermissionError(msg) => String::from_str("Erreur de permission: ").concat(
                msg.as_str(),
            ),
            BotError::InvalidChannelType => String::from_str("Le salon n'est pas un salon vocal"),
            BotError::NotGuildChannel => String::from_str(
                "Le salon n'est pas un salon de serveur",
            ),
        }
    }
}

} // verus!
