//! What is logged, and how much of it.

pub mod discord_logger;
pub mod levels;

pub use discord_logger::{DiscordLogger, LogType};
pub use levels::VerbosityLevel;
