//! The values given on the command line.

use vstd::prelude::*;

verus! {

/// What the operator passed on the command line, already split into fields.
#[derive(Debug, Clone)]
pub struct Args {
    /// Identifier of the voice channel to watch; needed for a new configuration.
    pub voice_channel_id: Option<u64>,
    /// Identifier of the channel that receives eviction confirmations.
    pub log_channel_id: Option<u64>,
    /// Identifier of the text channel that receives warnings.
    pub warning_channel_id: Option<u64>,
    /// Curfew time of day, written as hours and minutes.
    pub curfew_time: Option<String>,
    /// Seconds between a warning and what follows it.
    pub warning_delay_seconds: u64,
    /// Warn only, never evict.
    pub warning_only: bool,
    /// Recurring schedule, six white-space separated parts.
    pub cron_schedule: String,
    /// How many times the verbosity flag was given.
    pub verbose: u8,
    /// Path of the configuration file.
    pub config_file: String,
    /// Where to export the configuration, if asked.
    pub export_to: Option<String>,
    /// Where to import a configuration from, if asked.
    pub import_from: Option<String>,
    /// List the stored backups.
    pub list_backups: bool,
    /// Name of the backup to restore, if asked.
    pub restore_backup: Option<String>,
}

} // verus!
