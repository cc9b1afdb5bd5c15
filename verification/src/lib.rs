//! Curfew enforcement for a monitored voice channel: when the next cycle
//! fires, how a cycle escalates from warning to eviction, and who may
//! trigger one by hand.

pub mod bot;
pub mod config;
pub mod error;
pub mod handler;
pub mod history;
pub mod logging;
pub mod permissions;
pub mod scheduler;
pub mod utils;

pub use config::{Args, BotConfig, ConfigManager};
pub use error::BotError;
