//! Backups of the settings.

pub mod backup_manager;
pub mod restore;

pub use backup_manager::BackupManager;
pub use restore::RestoreManager;
