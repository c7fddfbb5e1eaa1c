use test_game::duration::Duration;
use test_game::state::{AppState, GameState};
use test_game::ui::in_game::{health_hearts, level_text, stop_watch_text};
use test_game::ui::pause_game::{handle_options_pressed, pause_options, OptionsButtonAction};
use test_game::ui::start_menu::{handle_button_click, start_menu_buttons, MenuButtonAction, GAME_TITLE};

#[test]
fn hearts_show_health() {
    assert_eq!(health_hearts(2, 4), vec![true, true, false, false]);
    assert_eq!(health_hearts(0, 2), vec![false, false]);
    assert!(health_hearts(3, 0).is_empty());
}

#[test]
fn stop_watch_shows_minutes_and_seconds() {
    assert_eq!(stop_watch_text(Duration::from_secs(125)), "2:05");
    assert_eq!(stop_watch_text(Duration::from_secs(600)), "10:00");
    assert_eq!(stop_watch_text(Duration::from_millis(59_999)), "0:59");
}

#[test]
fn level_label() {
    assert_eq!(level_text(7), "lvl. 7");
    assert_eq!(level_text(100), "lvl. 100");
}

#[test]
fn pause_menu() {
    let labels: Vec<&str> = pause_options().iter().map(|b| b.1).collect();
    assert_eq!(labels, vec!["Continue", "Settings", "Exit Game"]);
    assert_eq!(
        handle_options_pressed(OptionsButtonAction::Continue),
        (Some(GameState::Running), None)
    );
    assert_eq!(handle_options_pressed(OptionsButtonAction::Settings), (None, None));
    assert_eq!(
        handle_options_pressed(OptionsButtonAction::Exit),
        (None, Some(AppState::MainMenu))
    );
}

#[test]
fn start_menu() {
    assert_eq!(GAME_TITLE, "To be Announced");
    assert_eq!(handle_button_click(MenuButtonAction::Play), AppState::InGame);
}

#[test]
fn start_menu_has_one_start_button() {
    let buttons = start_menu_buttons();
    assert_eq!(buttons, vec![(MenuButtonAction::Play, "Start Game")]);
}
