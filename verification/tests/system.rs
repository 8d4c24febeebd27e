use pong::{
    BallSystem, Event, GameOverSystem, GameState, Input, MenuSystem, PauseSystem, PlaySystem,
    ServingSystem, Side, State,
};

fn playing_state() -> State {
    let mut state = State::new();
    state.game_state = GameState::Playing;
    state
}

#[test]
fn escape_returns_to_the_menu() {
    let mut state = playing_state();
    let mut input = Input::new();
    input.esc_pressed = true;
    PlaySystem.update_state(&mut input, &mut state, &mut Vec::new());

    assert_eq!(state.game_state, GameState::MainMenu);
}

#[test]
fn escape_quits_from_the_menu() {
    let mut state = State::new();
    let mut input = Input::new();
    input.esc_pressed = true;
    MenuSystem.update_state(&mut input, &mut state, &mut Vec::new());

    assert_eq!(state.game_state, GameState::Quitting);
}

#[test]
fn returning_to_the_menu_resets_the_score() {
    let mut state = playing_state();
    state.player1.score = 3;
    state.player2.score = 2;
    MenuSystem.start(&mut state);

    assert_eq!(state.player1.score, 0);
    assert_eq!(state.player2.score, 0);
}

#[test]
fn resuming_restores_the_menu_text() {
    let mut state = playing_state();
    PauseSystem.start(&mut state);
    state.game_state = GameState::Paused;
    assert_eq!(state.play_button.text, "Resume");

    let mut input = Input::new();
    input.enter_pressed = true;
    PauseSystem.update_state(&mut input, &mut state, &mut Vec::new());

    assert_eq!(state.game_state, GameState::Playing);
    assert_eq!(state.title_text.text, "PONG");
    assert_eq!(state.play_button.text, "Play");
}

// The ball at x 900 in an 800 pixel wide window has gone past the right edge.
#[test]
fn ball_past_the_right_scores_for_player_one() {
    let mut state = playing_state();
    BallSystem.update_state(Some(Side::Right), &mut state, &mut Vec::new());

    assert_eq!(state.player1.score, 1);
    assert_eq!(state.player2.score, 0);
    assert_eq!(state.game_state, GameState::Serving);
}

// The ball at x -10 has gone past the left edge.
#[test]
fn ball_past_the_left_scores_for_player_two() {
    let mut state = playing_state();
    BallSystem.update_state(Some(Side::Left), &mut state, &mut Vec::new());

    assert_eq!(state.player2.score, 1);
    assert_eq!(state.game_state, GameState::Serving);
}

#[test]
fn fifth_point_ends_the_game() {
    let mut state = playing_state();
    state.player1.score = 4;
    BallSystem.update_state(Some(Side::Right), &mut state, &mut Vec::new());

    assert_eq!(state.player1.score, 5);
    assert_eq!(state.game_state, GameState::GameOver);
}

#[test]
fn a_point_that_does_not_win_is_announced() {
    let mut state = playing_state();
    let mut events = Vec::new();
    BallSystem.update_state(Some(Side::Left), &mut state, &mut events);
    assert_eq!(events, vec![Event::Score]);

    state.game_state = GameState::Playing;
    state.player2.score = 4;
    let mut events = Vec::new();
    BallSystem.update_state(Some(Side::Left), &mut state, &mut events);
    assert!(events.is_empty());
    assert_eq!(state.game_state, GameState::GameOver);
}

#[test]
fn a_ball_still_in_the_window_scores_nothing() {
    let mut state = playing_state();
    let mut events = Vec::new();
    BallSystem.update_state(None, &mut state, &mut events);
    assert_eq!(state.player1.score, 0);
    assert_eq!(state.player2.score, 0);
    assert_eq!(state.game_state, GameState::Playing);
    assert!(events.is_empty());
}

#[test]
fn down_then_up_moves_the_menu_choice() {
    let mut state = State::new();
    MenuSystem.start(&mut state);
    assert!(state.play_button.focused());
    assert!(!state.quit_button.focused());

    let mut input = Input::new();
    input.p2_down_pressed = true;
    let mut events = Vec::new();
    MenuSystem.update_state(&mut input, &mut state, &mut events);
    assert!(!state.play_button.focused());
    assert!(state.quit_button.focused());
    assert_eq!(events, vec![Event::FocusChanged]);

    let mut input = Input::new();
    input.p1_up_pressed = true;
    let mut events = Vec::new();
    MenuSystem.update_state(&mut input, &mut state, &mut events);
    assert!(state.play_button.focused());
    assert!(!state.quit_button.focused());
    assert_eq!(events, vec![Event::FocusChanged]);
}

#[test]
fn enter_on_play_serves_and_on_quit_quits() {
    let mut state = State::new();
    MenuSystem.start(&mut state);
    let mut input = Input::new();
    input.enter_pressed = true;
    let mut events = Vec::new();
    MenuSystem.update_state(&mut input, &mut state, &mut events);
    assert_eq!(state.game_state, GameState::Serving);
    assert_eq!(events, vec![Event::ButtonPressed]);

    let mut state = State::new();
    MenuSystem.start(&mut state);
    let mut input = Input::new();
    input.p1_down_pressed = true;
    input.enter_pressed = true;
    let mut events = Vec::new();
    MenuSystem.update_state(&mut input, &mut state, &mut events);
    assert_eq!(state.game_state, GameState::Quitting);
    assert_eq!(events, vec![Event::FocusChanged, Event::ButtonPressed]);
}

#[test]
fn escape_on_the_menu_is_used_up() {
    let mut state = State::new();
    let mut input = Input::new();
    input.esc_pressed = true;
    let mut events = Vec::new();
    MenuSystem.update_state(&mut input, &mut state, &mut events);
    assert!(!input.esc_pressed);
    assert_eq!(events, vec![Event::ButtonPressed]);
}

#[test]
fn escape_from_play_forgets_every_key() {
    let mut state = playing_state();
    let mut input = Input::new();
    input.esc_pressed = true;
    input.p1_up_pressed = true;
    input.p2_down_pressed = true;
    let mut events = Vec::new();
    PlaySystem.update_state(&mut input, &mut state, &mut events);
    assert_eq!(input, Input::new());
    assert_eq!(events, vec![Event::ButtonPressed]);
}

#[test]
fn play_without_escape_changes_nothing() {
    let mut state = playing_state();
    let mut input = Input::new();
    input.p1_up_pressed = true;
    let mut events = Vec::new();
    PlaySystem.update_state(&mut input, &mut state, &mut events);
    assert_eq!(state.game_state, GameState::Playing);
    assert!(input.p1_up_pressed);
    assert!(events.is_empty());
}

#[test]
fn pause_screen_reads_paused_and_resume() {
    let mut state = playing_state();
    PauseSystem.start(&mut state);
    assert_eq!(state.title_text.text, "Paused");
    assert_eq!(state.play_button.text, "Resume");
    assert!(state.play_button.focused());

    let input = Input::new();
    let mut events = Vec::new();
    state.game_state = GameState::Paused;
    PauseSystem.update_state(&input, &mut state, &mut events);
    assert_eq!(state.game_state, GameState::Paused);
    assert!(events.is_empty());
}

#[test]
fn serve_redraws_the_scores() {
    let mut state = playing_state();
    state.player1.score = 3;
    state.player2.score = 12;
    let mut serving = ServingSystem::new();
    serving.start(&mut state);
    assert_eq!(state.player1_score.text, "3");
    assert_eq!(state.player2_score.text, "12");
}

#[test]
fn serve_waits_two_seconds() {
    let mut state = State::new();
    state.game_state = GameState::Serving;
    let serving = ServingSystem::new();
    let mut input = Input::new();
    let mut events = Vec::new();

    serving.update_state_after(&mut input, &mut state, &mut events, 2_000_000_000);
    assert_eq!(state.game_state, GameState::Serving);

    serving.update_state_after(&mut input, &mut state, &mut events, 2_000_000_001);
    assert_eq!(state.game_state, GameState::Playing);
    assert!(events.is_empty());
}

#[test]
fn escape_during_the_serve_returns_to_the_menu() {
    let mut state = State::new();
    state.game_state = GameState::Serving;
    let serving = ServingSystem::new();
    let mut input = Input::new();
    input.esc_pressed = true;
    input.enter_pressed = true;
    let mut events = Vec::new();
    serving.update_state_after(&mut input, &mut state, &mut events, 0);
    assert_eq!(state.game_state, GameState::MainMenu);
    assert_eq!(input, Input::new());
    assert_eq!(events, vec![Event::ButtonPressed]);
}

#[test]
fn a_fresh_serve_is_still_waiting() {
    let mut state = State::new();
    state.game_state = GameState::Serving;
    let mut serving = ServingSystem::new();
    serving.start(&mut state);
    let mut input = Input::new();
    serving.update_state(&mut input, &mut state, &mut Vec::new());
    assert_eq!(state.game_state, GameState::Serving);
}

#[test]
fn game_over_names_the_winner() {
    let mut state = State::new();
    state.player1.score = 5;
    state.player2.score = 3;
    let mut over = GameOverSystem::new();
    over.start(&mut state);
    assert_eq!(state.win_text.text, "Player 1 wins!");
    assert_eq!(state.player1_score.text, "5");
    assert_eq!(state.player2_score.text, "3");

    state.player1.score = 2;
    state.player2.score = 5;
    over.start(&mut state);
    assert_eq!(state.win_text.text, "Player 2 wins!");
}

#[test]
fn game_over_waits_five_seconds_and_escape_quits() {
    let mut state = State::new();
    state.game_state = GameState::GameOver;
    let over = GameOverSystem::new();
    let mut input = Input::new();
    let mut events = Vec::new();
    over.update_state_after(&mut input, &mut state, &mut events, 5_000_000_000);
    assert_eq!(state.game_state, GameState::GameOver);
    over.update_state_after(&mut input, &mut state, &mut events, 5_000_000_001);
    assert_eq!(state.game_state, GameState::MainMenu);

    state.game_state = GameState::GameOver;
    input.esc_pressed = true;
    over.update_state_after(&mut input, &mut state, &mut events, 0);
    assert_eq!(state.game_state, GameState::Quitting);
    assert!(!input.esc_pressed);
    assert_eq!(events, vec![Event::ButtonPressed]);
}

#[test]
fn a_fresh_game_over_screen_is_still_showing() {
    let mut state = State::new();
    state.game_state = GameState::GameOver;
    let mut over = GameOverSystem::new();
    over.start(&mut state);
    let mut input = Input::new();
    over.update_state(&mut input, &mut state, &mut Vec::new());
    assert_eq!(state.game_state, GameState::GameOver);
}

#[test]
fn escape_wins_over_the_serve_timer() {
    let mut state = State::new();
    state.game_state = GameState::Serving;
    let serving = ServingSystem::new();
    let mut input = Input::new();
    input.esc_pressed = true;
    let mut events = Vec::new();
    serving.update_state_after(&mut input, &mut state, &mut events, 3_000_000_000);
    assert_eq!(state.game_state, GameState::MainMenu);
    assert_eq!(input, Input::new());
    assert_eq!(events, vec![Event::ButtonPressed]);
}

#[test]
fn escape_wins_over_the_game_over_timer() {
    let mut state = State::new();
    state.game_state = GameState::GameOver;
    let over = GameOverSystem::new();
    let mut input = Input::new();
    input.esc_pressed = true;
    let mut events = Vec::new();
    over.update_state_after(&mut input, &mut state, &mut events, 6_000_000_000);
    assert_eq!(state.game_state, GameState::Quitting);
    assert!(!input.esc_pressed);
    assert_eq!(events, vec![Event::ButtonPressed]);
}
