//! The enforcement engine: when a cycle fires, how it escalates, and what
//! it says.

pub mod cycle;
pub mod handler;
pub mod phrases;
pub mod voice_manager;
pub mod warning;

pub use handler::BotHandler;
pub use voice_manager::VoiceChannelManager;
pub use warning::WarningManager;
pub use cycle::{
    CycleAction, CycleEvent, CycleKind, CyclePhase, CyclePolicy, CycleRun, EvictionFailure,
    Occupant, WarningKind,
};
