//! Configuration of the bot: command-line arguments and stored settings.

pub mod args;
pub mod settings;
pub mod versioning;

pub use args::Args;
pub use settings::{BotConfig, ConfigManager, CurfewTime};
