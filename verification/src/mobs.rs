//! Enemies and bosses.

pub mod base;
pub mod boss;
pub mod enemy;
