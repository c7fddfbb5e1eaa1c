//! Loot that dead enemies drop and what picking it up does.

pub mod coin;
pub mod loot;
pub mod loot_plugin;
pub mod xp;
