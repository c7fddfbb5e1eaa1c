//! Bosses.

pub mod components;
