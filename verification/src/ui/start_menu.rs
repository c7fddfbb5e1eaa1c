use vstd::prelude::*;

use crate::state::AppState;

verus! {

/// The title on the main menu and the window.
pub const GAME_TITLE: &'static str = "To be Announced";

/// The buttons of the main menu.
#[derive(Clone, Copy, Debug, PartialEq, Eq, Structural)]
pub enum MenuButtonAction {
    Play,
}

/// The buttons of the main menu, under the title, with their labels.
pub fn start_menu_buttons() -> (buttons: Vec<(MenuButtonAction, &'static str)>)
    ensures
        buttons@ == seq![(MenuButtonAction::Play, "Start Game")],
{
    let buttons = vec![(MenuButtonAction::Play, "Start Game")];
    assert(buttons@ =~= seq![(MenuButtonAction::Play, "Start Game")]);
    buttons
}

/// What pressing a button of the main menu does: `Play` starts a run.
pub fn handle_button_click(action: MenuButtonAction) -> (next: AppState)
    ensures
        next == AppState::InGame,
{
    match action {
        MenuButtonAction::Play => AppState::InGame,
    }
}

} // verus!
