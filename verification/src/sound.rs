//! Sound effects and the sound parts of the game.

pub mod events;
pub mod sound_plugin;
