//! The player and the bosses.

pub mod bosses;
pub mod components;
pub mod player;
