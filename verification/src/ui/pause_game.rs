use vstd::prelude::*;

use crate::state::{AppState, GameState};

verus! {

/// The buttons of the pause screen.
#[derive(Clone, Copy, Debug, PartialEq, Eq, Structural)]
pub enum OptionsButtonAction {
    Continue,
    Settings,
    Exit,
}

/// The buttons of the pause screen from top to bottom, with their labels.
pub fn pause_options() -> (buttons: Vec<(OptionsButtonAction, &'static str)>)
    ensures
        buttons@ == seq![
            (OptionsButtonAction::Continue, "Continue"),
            (OptionsButtonAction::Settings, "Settings"),
            (OptionsButtonAction::Exit, "Exit Game"),
        ],
{
    let buttons = vec![
        (OptionsButtonAction::Continue, "Continue"),
        (OptionsButtonAction::Settings, "Settings"),
        (OptionsButtonAction::Exit, "Exit Game"),
    ];
    assert(buttons@ =~= seq![
        (OptionsButtonAction::Continue, "Continue"),
        (OptionsButtonAction::Settings, "Settings"),
        (OptionsButtonAction::Exit, "Exit Game"),
    ]);
    buttons
}

/// What pressing a button of the pause screen does: `Continue` resumes the
/// run, `Exit` goes back to the main menu, `Settings` does nothing yet.
pub fn handle_options_pressed(action: OptionsButtonAction) -> (next: (Option<GameState>, Option<AppState>))
    ensures
        next == (match action {
            OptionsButtonAction::Continue => (Some(GameState::Running), None),
            OptionsButtonAction::Settings => (None, None),
            OptionsButtonAction::Exit => (None, Some(AppState::MainMenu)),
        }),
{
    match action {
        OptionsButtonAction::Continue => (Some(GameState::Running), None),
        OptionsButtonAction::Settings => (None, None),
        OptionsButtonAction::Exit => (None, Some(AppState::MainMenu)),
    }
}

} // verus!
