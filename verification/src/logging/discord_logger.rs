//! Which events reach the log channel.

use vstd::prelude::*;
use crate::config::settings::BotConfig;
use crate::error::BotError;
use crate::logging::levels::VerbosityLevel;

verus! {

/// What a log entry is about.
#[derive(Debug, Clone, Copy, PartialEq, Eq, Structural)]
pub enum LogType {
    Info,
    Warning,
    Error,
}

/// Decides what goes to the log channel.
#[derive(Debug)]
pub struct DiscordLogger {
    config: BotConfig,
    verbosity: VerbosityLevel,
}

impl DiscordLogger {
    /// The settings that the logger goes by.
    pub closed spec fn spec_config(&self) -> BotConfig {
        self.config
    }

    /// How much the logger logs.
    pub closed spec fn spec_verbosity(&self) -> VerbosityLevel {
        self.verbosity
    }

    /// A logger that goes by `config` and logs as much as `verbosity` says.
    pub fn new(config: BotConfig, verbosity: VerbosityLevel) -> (logger: DiscordLogger)
        ensures
            logger.spec_config() == config,
            logger.spec_verbosity() == verbosity,
    {
        DiscordLogger { config, verbosity }
    }

    /// Takes note of a message of this kind: nothing is sent yet, and it
    /// never fails.
    pub fn log(&self, log_type: LogType, message: &str) -> (r: Result<(), BotError>)
        ensures
            r is Ok,
    {
        Ok(())
    }

    /// Takes note of what a user did: nothing is sent yet, and it never fails.
    pub fn log_user_interaction(&self, user_tag: &str, action: &str, details: Option<&str>) -> (r:
        Result<(), BotError>)
        ensures
            r is Ok,
    {
        Ok(())
    }

    /// Takes note of an eviction: nothing is sent yet, and it never fails.
    pub fn log_kick(&self, user_tag: &str, channel_name: &str, reason: Option<&str>) -> (r: Result<
        (),
        BotError,
    >)
        ensures
            r is Ok,
    {
        Ok(())
    }

    /// Takes note of an error: nothing is sent yet, and it never fails.
    pub fn log_error(&self, error_message: &str, details: Option<&str>) -> (r: Result<
        (),
        BotError,
    >)
        ensures
            r is Ok,
    {
        Ok(())
    }

    /// How much the logger logs.
    pub fn verbosity(&self) -> (level: VerbosityLevel)
        ensures
            level == self.spec_verbosity(),
    {
        self.verbosity
    }

    /// The channel that log entries go to, if one is configured.
    pub fn log_channel(&self) -> (channel_id: Option<u64>)
        ensures
            channel_id == self.spec_config().log_channel_id,
    {
        self.config.log_channel_id
    }
}

} // verus!
