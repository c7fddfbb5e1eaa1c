//! Permanent upgrades bought with coins between runs.

pub mod events;
pub mod save_game_plugin;
pub mod stats;
