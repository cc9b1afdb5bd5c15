//! Making backups of the settings.

use vstd::prelude::*;
use crate::config::settings::BotConfig;
use crate::error::BotError;

verus! {

/// Makes backups of the settings.
#[derive(Debug, Clone, Copy, PartialEq, Eq, Structural)]
pub struct BackupManager;

impl BackupManager {
    /// A maker of backups; making one never fails.
    pub fn new() -> (r: Result<BackupManager, BotError>)
        ensures
            r is Ok,
    {
        Ok(BackupManager)
    }

    /// Makes a backup of `config` for `created_by` with this reason:
    /// nothing is kept yet, and it never fails.
    pub fn create_backup(
        &self,
        config: &BotConfig,
        created_by: Option<&str>,
        reason: Option<&str>,
    ) -> (r: Result<(), BotError>)
        ensures
            r is Ok,
    {
        Ok(())
    }
}

} // verus!
