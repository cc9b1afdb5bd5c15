//! What the bot answers to commands, buttons and forms.

pub mod commands;
pub mod interactions;

use vstd::prelude::*;
use vstd::string::*;
use crate::config::settings::BotConfig;
use crate::permissions::validator::PermissionValidator;

pub use commands::{handle_slash_command, parse_permission_level, Reply, SlashCommand};

verus! {

/// What kind of interaction came in.
#[derive(Debug, Clone, Copy, PartialEq, Eq, Structural)]
pub enum InteractionKind {
    /// A slash command.
    Command,
    /// A button or a menu of a message.
    Component,
    /// A submitted form.
    Modal,
    /// Anything else.
    Other,
}

/// Answers the interactions of one bot.
#[derive(Debug)]
pub struct BotHandler {
    config: BotConfig,
    permission_validator: PermissionValidator,
}

impl BotHandler {
    /// The settings that the handler goes by.
    pub closed spec fn spec_config(&self) -> BotConfig {
        self.config
    }

    /// The validator that the handler checks with.
    pub closed spec fn spec_permission_validator(&self) -> PermissionValidator {
        self.permission_validator
    }

    /// A handler that goes by `config` and checks with `permission_validator`.
    pub fn new(config: BotConfig, permission_validator: PermissionValidator) -> (handler:
        BotHandler)
        ensures
            handler.spec_config() == config,
            handler.spec_permission_validator() == permission_validator,
    {
        BotHandler { config, permission_validator }
    }

    /// The settings that the handler goes by.
    pub fn config(&self) -> (config: &BotConfig)
        ensures
            *config == self.spec_config(),
    {
        &self.config
    }

    /// The validator that the handler checks with.
    pub fn permission_validator(&self) -> (validator: &PermissionValidator)
        ensures
            *validator == self.spec_permission_validator(),
    {
        &self.permission_validator
    }
}

/// Whether an interaction of this kind is handled at all: slash commands
/// are, nothing else is.
pub fn handle_interaction(kind: InteractionKind) -> (handled: bool)
    ensures
        handled == (kind == InteractionKind::Command),
{
    match kind {
        InteractionKind::Command => true,
        _ => false,
    }
}

/// The reply that reports an error.
pub open spec fn error_response_text(error_message: Seq<char>) -> Seq<char> {
    "❌ **Erreur**\n"@ + error_message
}

/// The reply that reports `error_message` to the user alone; none for an
/// interaction that cannot be answered.
pub fn send_error_response(kind: InteractionKind, error_message: &str) -> (reply: Option<Reply>)
    ensures
        reply is Some <==> kind == InteractionKind::Command,
        reply matches Some(r) ==> r.ephemeral && r.content@ == error_response_text(
            error_message@,
        ),
{
    match kind {
        InteractionKind::Command => Some(
            Reply {
                content: String::from_str("❌ **Erreur**\n").concat(error_message),
                ephemeral: true,
            },
        ),
        _ => None,
    }
}

} // verus!
