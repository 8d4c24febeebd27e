use pong::{Event, FrameAction, GameState, Key, PongGame, Setup, Side, TextSlot};

#[test]
fn opening_shows_the_menu_with_play_chosen() {
    let mut game = PongGame::new();
    assert_eq!(game.open(), Setup::CenterPaddles);
    assert_eq!(game.state.game_state, GameState::MainMenu);
    assert!(game.state.play_button.focused());
    assert!(game.state.drawn_pieces().is_empty());
    assert_eq!(
        game.state.drawn_texts(),
        vec![TextSlot::Title, TextSlot::PlayButton, TextSlot::QuitButton]
    );
}

#[test]
fn enter_on_the_menu_serves_and_redraws_the_scores() {
    let mut game = PongGame::new();
    game.open();
    game.process_keyboard(Key::Enter, true, false);
    let from = game.state.game_state;
    let mut events = Vec::new();
    assert_eq!(game.frame_after(&mut events, 0), FrameAction::Still);
    assert_eq!(game.finish_frame(from), Setup::Serve);
    assert_eq!(game.state.game_state, GameState::Serving);
    assert_eq!(game.state.player1_score.text, "0");
    assert!(game.state.ball.visible);
    assert_eq!(events, vec![Event::ButtonPressed]);
}

#[test]
fn a_rally_frame_asks_for_the_ball_and_scores_its_point() {
    let mut game = PongGame::new();
    game.open();
    game.state.game_state = GameState::Playing;
    let mut events = Vec::new();
    assert_eq!(game.frame_after(&mut events, 0), FrameAction::Rally);
    game.ball_left(Some(Side::Right), &mut events);
    assert_eq!(game.finish_frame(GameState::Playing), Setup::Serve);
    assert_eq!(game.state.player1.score, 1);
    assert_eq!(game.state.player1_score.text, "1");
    assert_eq!(events, vec![Event::Score]);
}

#[test]
fn escape_from_a_rally_starts_the_next_game_clean() {
    let mut game = PongGame::new();
    game.open();
    game.state.game_state = GameState::Playing;
    game.state.player1.score = 3;
    game.state.player2.score = 1;
    game.state.play_button.set_focus(false);
    game.state.quit_button.set_focus(true);
    game.process_keyboard(Key::Escape, true, false);
    game.process_keyboard(Key::W, true, false);
    let mut events = Vec::new();
    assert_eq!(game.frame_after(&mut events, 0), FrameAction::Still);
    assert_eq!(game.finish_frame(GameState::Playing), Setup::CenterPaddles);
    assert_eq!(game.state.game_state, GameState::MainMenu);
    assert_eq!(game.state.player1.score, 0);
    assert_eq!(game.state.player2.score, 0);
    assert!(game.state.play_button.focused());
    assert!(!game.input.p1_up_pressed);
}

#[test]
fn losing_focus_in_a_rally_shows_the_pause_screen() {
    let mut game = PongGame::new();
    game.open();
    game.state.game_state = GameState::Playing;
    assert_eq!(game.focus_changed(true), Setup::Nothing);
    assert_eq!(game.state.game_state, GameState::Playing);
    assert_eq!(game.focus_changed(false), Setup::Nothing);
    assert_eq!(game.state.game_state, GameState::Paused);
    assert_eq!(game.state.title_text.text, "Paused");
    assert_eq!(game.state.play_button.text, "Resume");
    assert!(!game.state.quit_button.visible);
}

#[test]
fn the_fifth_point_names_the_winner() {
    let mut game = PongGame::new();
    game.open();
    game.state.game_state = GameState::Playing;
    game.state.player2.score = 4;
    let mut events = Vec::new();
    game.frame_after(&mut events, 0);
    game.ball_left(Some(Side::Left), &mut events);
    game.finish_frame(GameState::Playing);
    assert_eq!(game.state.game_state, GameState::GameOver);
    assert_eq!(game.state.win_text.text, "Player 2 wins!");
    assert!(game.state.win_text.visible);
    assert!(!game.state.ball.visible);
}

#[test]
fn quitting_is_reported_and_frames_do_nothing() {
    let mut game = PongGame::new();
    game.open();
    game.process_keyboard(Key::Escape, true, false);
    let mut events = Vec::new();
    game.frame(&mut events);
    game.finish_frame(GameState::MainMenu);
    assert!(game.is_quitting());
    let mut more = Vec::new();
    assert_eq!(game.frame(&mut more), FrameAction::Still);
    assert!(more.is_empty());
}
