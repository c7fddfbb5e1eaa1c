//! Game rules of a top-down survival game: cooldowns, damage bookkeeping,
//! prestige upgrades, loot and map decisions, all with verified contracts.

pub mod duration;
pub mod mechanics;
pub mod text;
pub mod prestige;
pub mod tools;
pub mod skills;
pub mod sprites;
pub mod sound;
pub mod rng;
pub mod loot;
pub mod state;
pub mod characters;
pub mod mobs;
pub mod ui;
pub mod map;
pub mod items;
pub mod level_up_plugin;
