//! What the screens show and what their buttons do.

pub mod in_game;
pub mod pause_game;
pub mod start_menu;
