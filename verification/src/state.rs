use vstd::prelude::*;

verus! {

/// The screen that the application shows.
#[derive(Clone, Copy, Debug, PartialEq, Eq, Hash, Structural)]
pub enum AppState {
    MainMenu,
    InGame,
}

/// The phase of a run.
#[derive(Clone, Copy, Debug, PartialEq, Eq, Hash, Structural)]
pub enum GameState {
    Paused,
    Running,
    LevelUp,
    Win,
    Loss,
    NotStarted,
}

} // verus!
