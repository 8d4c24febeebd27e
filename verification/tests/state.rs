use pong::{
    decimal_text, Ball, GameState, Input, Key, Piece, Player, State, TextSlot, VisibilitySystem,
};

#[test]
fn the_game_opens_on_the_menu() {
    let state = State::new();
    assert_eq!(state.game_state, GameState::MainMenu);
    assert_eq!(state.title_text.text, "PONG");
    assert_eq!(state.play_button.text, "Play");
    assert_eq!(state.quit_button.text, "Quit");
    assert_eq!(state.player1_score.text, "0");
    assert_eq!(state.player2_score.text, "0");
    assert_eq!(state.win_text.text, "");
    assert!(state.ball.visible);
    assert_eq!(state.drawn_pieces(), vec![Piece::Ball]);
    assert!(state.drawn_texts().is_empty());
}

#[test]
fn losing_focus_while_playing_pauses() {
    let mut state = State::new();
    state.game_state = GameState::Playing;
    state.pause_game();
    assert_eq!(state.game_state, GameState::Paused);
}

#[test]
fn losing_focus_on_the_menu_does_nothing() {
    let mut state = State::new();
    state.pause_game();
    assert_eq!(state.game_state, GameState::MainMenu);
    state.game_state = GameState::GameOver;
    state.pause_game();
    assert_eq!(state.game_state, GameState::GameOver);
}

#[test]
fn the_menu_shows_its_three_lines() {
    let mut state = State::new();
    VisibilitySystem.update_state(&mut state);
    assert!(state.drawn_pieces().is_empty());
    assert_eq!(
        state.drawn_texts(),
        vec![TextSlot::Title, TextSlot::PlayButton, TextSlot::QuitButton]
    );
}

#[test]
fn a_rally_shows_paddles_ball_and_scores() {
    let mut state = State::new();
    state.game_state = GameState::Playing;
    VisibilitySystem.update_state(&mut state);
    assert_eq!(
        state.drawn_pieces(),
        vec![Piece::Player1, Piece::Player2, Piece::Ball]
    );
    assert_eq!(
        state.drawn_texts(),
        vec![TextSlot::Player1Score, TextSlot::Player2Score]
    );
}

#[test]
fn game_over_hides_the_ball_and_names_the_winner() {
    let mut state = State::new();
    state.game_state = GameState::GameOver;
    VisibilitySystem.update_state(&mut state);
    assert_eq!(state.drawn_pieces(), vec![Piece::Player1, Piece::Player2]);
    assert_eq!(
        state.drawn_texts(),
        vec![TextSlot::Player1Score, TextSlot::Player2Score, TextSlot::WinText]
    );
}

#[test]
fn the_pause_screen_hides_the_game_and_the_quit_entry() {
    let mut state = State::new();
    state.game_state = GameState::Paused;
    VisibilitySystem.update_state(&mut state);
    assert!(state.drawn_pieces().is_empty());
    assert_eq!(state.drawn_texts(), vec![TextSlot::Title, TextSlot::PlayButton]);
}

#[test]
fn quitting_shows_nothing() {
    let mut state = State::new();
    state.game_state = GameState::Quitting;
    VisibilitySystem.update_state(&mut state);
    assert!(state.drawn_pieces().is_empty());
    assert!(state.drawn_texts().is_empty());
}

#[test]
fn text_slots_name_their_lines() {
    let state = State::new();
    assert_eq!(state.text(TextSlot::Title).text, "PONG");
    assert_eq!(state.text(TextSlot::QuitButton).text, "Quit");
    assert_eq!(state.text(TextSlot::Player2Score).text, "0");
}

#[test]
fn new_pieces() {
    let p = Player::new();
    assert_eq!(p.score, 0);
    assert!(!p.visible);
    assert!(Ball::new().visible);
}

#[test]
fn scores_are_written_in_decimal() {
    assert_eq!(decimal_text(0), "0");
    assert_eq!(decimal_text(7), "7");
    assert_eq!(decimal_text(10), "10");
    assert_eq!(decimal_text(305), "305");
    assert_eq!(decimal_text(u32::MAX), "4294967295");
}

#[test]
fn escape_ignores_key_repeat() {
    let mut input = Input::new();
    input.process_keyboard(Key::Escape, true, true);
    assert!(!input.esc_pressed);
    input.process_keyboard(Key::Escape, true, false);
    assert!(input.esc_pressed);
}

#[test]
fn escape_ignores_release() {
    let mut input = Input::new();
    input.process_keyboard(Key::Escape, false, false);
    assert!(!input.esc_pressed);
    input.process_keyboard(Key::Escape, true, false);
    input.process_keyboard(Key::Escape, false, false);
    assert!(input.esc_pressed);
}

#[test]
fn held_keys_follow_the_keyboard() {
    let mut input = Input::new();
    input.process_keyboard(Key::W, true, false);
    input.process_keyboard(Key::Down, true, false);
    assert!(input.p1_up_pressed);
    assert!(input.p2_down_pressed);
    assert!(input.ui_up_pressed());
    assert!(input.ui_down_pressed());
    input.process_keyboard(Key::W, false, false);
    assert!(!input.p1_up_pressed);
    assert!(!input.ui_up_pressed());
    input.process_keyboard(Key::Enter, true, false);
    input.process_keyboard(Key::S, true, false);
    input.process_keyboard(Key::Up, true, false);
    assert!(input.enter_pressed && input.p1_down_pressed && input.p2_up_pressed);
    input.clear();
    assert_eq!(input, Input::new());
}
