use vstd::prelude::*;
use vstd::string::*;

use crate::clock::{as_nanos, elapsed, now};
use crate::input::{ui_down, ui_up, Event, Input};
use crate::state::{Ball, GameState, Player, State, StateModel, TextModel};
use crate::text::{decimal, decimal_text};

verus! {

/// Points that win a game.
pub const WINNING_SCORE: u32 = 5;

/// How long the ball waits in the middle before play starts, in nanoseconds.
pub const SERVE_DELAY_NANOS: u128 = 2_000_000_000;

/// How long the winner is named before the game returns to the menu, in
/// nanoseconds.
pub const GAME_OVER_DELAY_NANOS: u128 = 5_000_000_000;

/// What one frame of a screen does: the state, keyboard flags and events it
/// leaves.
pub struct Step {
    pub state: StateModel,
    pub input: Input,
    pub events: Seq<Event>,
}

/// The edge of the window the ball has gone past.
#[derive(Debug, Clone, Copy, PartialEq, Eq, Structural)]
pub enum Side {
    Left,
    Right,
}

/// The screens on which the paddles, ball and scores are shown.
pub open spec fn in_game(g: GameState) -> bool {
    g == GameState::Serving || g == GameState::Playing || g == GameState::GameOver
}

/// `s` with everything shown or hidden as its screen asks: paddles and scores
/// in a game, the ball in a game that is not over, the title and play entry on
/// the menu and the pause screen, the quit entry on the menu, the win text
/// when the game is over.
pub open spec fn shown(s: StateModel) -> StateModel {
    let g = s.game_state;
    let game = in_game(g);
    let menu = g == GameState::MainMenu || g == GameState::Paused;
    StateModel {
        ball: Ball { visible: game && g != GameState::GameOver },
        player1: Player { visible: game, ..s.player1 },
        player2: Player { visible: game, ..s.player2 },
        player1_score: TextModel { visible: game, ..s.player1_score },
        player2_score: TextModel { visible: game, ..s.player2_score },
        title_text: TextModel { visible: menu, ..s.title_text },
        play_button: TextModel { visible: menu, ..s.play_button },
        quit_button: TextModel { visible: g == GameState::MainMenu, ..s.quit_button },
        win_text: TextModel { visible: g == GameState::GameOver, ..s.win_text },
        ..s
    }
}

/// Entering the menu: no points, and Play chosen.
pub open spec fn menu_started(s: StateModel) -> StateModel {
    StateModel {
        player1: Player { score: 0, ..s.player1 },
        player2: Player { score: 0, ..s.player2 },
        play_button: TextModel { focused: true, ..s.play_button },
        quit_button: TextModel { focused: false, ..s.quit_button },
        ..s
    }
}

/// A frame on the menu. Escape quits and is used up. Down moves the choice
/// from Play to Quit, or else up moves it from Quit to Play. Enter then acts
/// on the entry chosen: Play serves, Quit quits.
pub open spec fn menu_step(s: StateModel, i: Input) -> Step {
    let esc = i.esc_pressed;
    let i1 = Input { esc_pressed: false, ..i };
    let g0 = if esc {
        GameState::Quitting
    } else {
        s.game_state
    };
    let ev0 = if esc {
        seq![Event::ButtonPressed]
    } else {
        Seq::empty()
    };
    let down = s.play_button.focused && ui_down(i);
    let up = !down && s.quit_button.focused && ui_up(i);
    let play = if down {
        false
    } else if up {
        true
    } else {
        s.play_button.focused
    };
    let quit = if down {
        true
    } else if up {
        false
    } else {
        s.quit_button.focused
    };
    let ev1 = if down || up {
        seq![Event::FocusChanged]
    } else {
        Seq::empty()
    };
    let serve = play && i.enter_pressed;
    let leave = !serve && quit && i.enter_pressed;
    let g1 = if serve {
        GameState::Serving
    } else if leave {
        GameState::Quitting
    } else {
        g0
    };
    let ev2 = if serve || leave {
        seq![Event::ButtonPressed]
    } else {
        Seq::empty()
    };
    Step {
        state: StateModel {
            game_state: g1,
            play_button: TextModel { focused: play, ..s.play_button },
            quit_button: TextModel { focused: quit, ..s.quit_button },
            ..s
        },
        input: i1,
        events: ev0 + ev1 + ev2,
    }
}

/// Escape during a serve or a rally: back to the menu, with every key
/// forgotten so that nothing held carries over.
pub open spec fn escaped_to_menu(s: StateModel, i: Input) -> Step {
    if i.esc_pressed {
        Step {
            state: StateModel { game_state: GameState::MainMenu, ..s },
            input: crate::input::no_keys(),
            events: seq![Event::ButtonPressed],
        }
    } else {
        Step { state: s, input: i, events: Seq::empty() }
    }
}

/// The decisions of a frame of play; the paddles move outside the rules.
pub open spec fn play_step(s: StateModel, i: Input) -> Step {
    escaped_to_menu(s, i)
}

/// Entering the pause screen: it reads Paused / Resume, with Resume chosen.
pub open spec fn pause_started(s: StateModel) -> StateModel {
    StateModel {
        title_text: TextModel { text: "Paused"@, ..s.title_text },
        play_button: TextModel { text: "Resume"@, focused: true, ..s.play_button },
        ..s
    }
}

/// A frame of the pause screen: enter on Resume resumes play and puts the
/// menu's own words back.
pub open spec fn pause_step(s: StateModel, i: Input) -> Step {
    if s.play_button.focused && i.enter_pressed {
        Step {
            state: StateModel {
                game_state: GameState::Playing,
                title_text: TextModel { text: "PONG"@, ..s.title_text },
                play_button: TextModel { text: "Play"@, ..s.play_button },
                ..s
            },
            input: i,
            events: seq![Event::ButtonPressed],
        }
    } else {
        Step { state: s, input: i, events: Seq::empty() }
    }
}

/// A point to the player with `score`: the game is over at the winning score,
/// otherwise the next serve follows.
pub open spec fn after_point(s: StateModel, score: int) -> (GameState, Seq<Event>) {
    if score >= WINNING_SCORE {
        (GameState::GameOver, Seq::empty())
    } else {
        (GameState::Serving, seq![Event::Score])
    }
}

/// The ball leaving through `exit`: past the right edge is a point to the
/// left player, past the left edge a point to the right player.
pub open spec fn score_step(s: StateModel, exit: Option<Side>) -> (StateModel, Seq<Event>) {
    match exit {
        Some(Side::Right) => {
            let score = s.player1.score + 1;
            let (g, ev) = after_point(s, score);
            (
                StateModel {
                    game_state: g,
                    player1: Player { score: score as u32, ..s.player1 },
                    ..s
                },
                ev,
            )
        },
        Some(Side::Left) => {
            let score = s.player2.score + 1;
            let (g, ev) = after_point(s, score);
            (
                StateModel {
                    game_state: g,
                    player2: Player { score: score as u32, ..s.player2 },
                    ..s
                },
                ev,
            )
        },
        None => (s, Seq::empty()),
    }
}

/// Both score lines redrawn from the points.
pub open spec fn scores_written(s: StateModel) -> StateModel {
    StateModel {
        player1_score: TextModel { text: decimal(s.player1.score as nat), ..s.player1_score },
        player2_score: TextModel { text: decimal(s.player2.score as nat), ..s.player2_score },
        ..s
    }
}

/// A frame of the serve, `elapsed` nanoseconds after it began: escape goes
/// back to the menu; otherwise, once the wait is over, play starts.
pub open spec fn serving_step(s: StateModel, i: Input, elapsed: u128) -> Step {
    let e = escaped_to_menu(s, i);
    if !i.esc_pressed && elapsed > SERVE_DELAY_NANOS {
        Step { state: StateModel { game_state: GameState::Playing, ..e.state }, ..e }
    } else {
        e
    }
}

/// The line that names the winner: the left player with more points, else
/// the right.
pub open spec fn winner_line(s: StateModel) -> Seq<char> {
    if s.player1.score > s.player2.score {
        "Player 1 wins!"@
    } else {
        "Player 2 wins!"@
    }
}

/// Entering the game-over screen: the scores redrawn and the winner named.
pub open spec fn game_over_started(s: StateModel) -> StateModel {
    let w = scores_written(s);
    StateModel { win_text: TextModel { text: winner_line(s), ..w.win_text }, ..w }
}

/// A frame of the game-over screen, `elapsed` nanoseconds after it began:
/// escape quits and is used up; otherwise, once the wait is over, the game
/// returns to the menu.
pub open spec fn game_over_step(s: StateModel, i: Input, elapsed: u128) -> Step {
    let g1 = if i.esc_pressed {
        GameState::Quitting
    } else if elapsed > GAME_OVER_DELAY_NANOS {
        GameState::MainMenu
    } else {
        s.game_state
    };
    Step {
        state: StateModel { game_state: g1, ..s },
        input: Input { esc_pressed: false, ..i },
        events: if i.esc_pressed {
            seq![Event::ButtonPressed]
        } else {
            Seq::empty()
        },
    }
}

/// Shows and hides what each screen shows.
pub struct VisibilitySystem;

impl VisibilitySystem {
    pub fn update_state(&self, state: &mut State)
        ensures
            final(state)@ == shown(old(state)@),
    {
        let g = state.game_state;
        let is_in_game = g == GameState::Serving || g == GameState::Playing || g
            == GameState::GameOver;
        state.ball.visible = is_in_game && g != GameState::GameOver;
        state.player1.visible = is_in_game;
        state.player1_score.visible = is_in_game;
        state.player2.visible = is_in_game;
        state.player2_score.visible = is_in_game;
        state.title_text.visible = g == GameState::MainMenu || g == GameState::Paused;
        state.play_button.visible = g == GameState::MainMenu || g == GameState::Paused;
        state.quit_button.visible = g == GameState::MainMenu;
        state.win_text.visible = g == GameState::GameOver;
    }
}


/// The main menu: PONG, Play and Quit.
pub struct MenuSystem;

impl MenuSystem {
    /// Entering the menu: the points go back to nothing and Play is chosen.
    /// (The paddles going back to the middle is the drawing side's part.)
    pub fn start(&mut self, state: &mut State)
        ensures
            final(state)@ == menu_started(old(state)@),
    {
        state.player1.score = 0;
        state.player2.score = 0;
        state.play_button.set_focus(true);
        state.quit_button.set_focus(false);
    }

    pub fn update_state(&self, input: &mut Input, state: &mut State, events: &mut Vec<Event>)
        ensures
            final(state)@ == menu_step(old(state)@, *old(input)).state,
            *final(input) == menu_step(old(state)@, *old(input)).input,
            final(events)@ == old(events)@ + menu_step(old(state)@, *old(input)).events,
    {
        if input.esc_pressed {
            events.push(Event::ButtonPressed);
            state.game_state = GameState::Quitting;
            input.esc_pressed = false;
        }
        if state.play_button.focused() && input.ui_down_pressed() {
            events.push(Event::FocusChanged);
            state.play_button.set_focus(false);
            state.quit_button.set_focus(true);
        } else if state.quit_button.focused() && input.ui_up_pressed() {
            events.push(Event::FocusChanged);
            state.quit_button.set_focus(false);
            state.play_button.set_focus(true);
        }
        if state.play_button.focused() && input.enter_pressed {
            events.push(Event::ButtonPressed);
            state.game_state = GameState::Serving;
        } else if state.quit_button.focused() && input.enter_pressed {
            events.push(Event::ButtonPressed);
            state.game_state = GameState::Quitting;
        }
    }
}

/// A rally.
pub struct PlaySystem;

impl PlaySystem {
    /// The decisions of a frame of play: escape goes back to the menu. The
    /// paddles are moved afterwards, from the keys this leaves, by the
    /// drawing side.
    pub fn update_state(&self, input: &mut Input, state: &mut State, events: &mut Vec<Event>)
        ensures
            final(state)@ == play_step(old(state)@, *old(input)).state,
            *final(input) == play_step(old(state)@, *old(input)).input,
            final(events)@ == old(events)@ + play_step(old(state)@, *old(input)).events,
    {
        escape_to_menu(input, state, events);
    }
}

fn escape_to_menu(input: &mut Input, state: &mut State, events: &mut Vec<Event>)
    ensures
        final(state)@ == escaped_to_menu(old(state)@, *old(input)).state,
        *final(input) == escaped_to_menu(old(state)@, *old(input)).input,
        final(events)@ == old(events)@ + escaped_to_menu(old(state)@, *old(input)).events,
{
    if input.esc_pressed {
        input.clear();
        events.push(Event::ButtonPressed);
        state.game_state = GameState::MainMenu;
        input.esc_pressed = false;
    }
}

/// The pause screen.
pub struct PauseSystem;

impl PauseSystem {
    /// Entering the pause screen: it reads Paused / Resume, with Resume chosen.
    pub fn start(&mut self, state: &mut State)
        ensures
            final(state)@ == pause_started(old(state)@),
    {
        state.title_text.set_text(String::from_str("Paused"));
        state.play_button.set_text(String::from_str("Resume"));
        state.play_button.set_focus(true);
    }

    pub fn update_state(&self, input: &Input, state: &mut State, events: &mut Vec<Event>)
        ensures
            final(state)@ == pause_step(old(state)@, *input).state,
            final(events)@ == old(events)@ + pause_step(old(state)@, *input).events,
    {
        if state.play_button.focused() && input.enter_pressed {
            events.push(Event::ButtonPressed);
            state.game_state = GameState::Playing;
            state.title_text.set_text(String::from_str("PONG"));
            state.play_button.set_text(String::from_str("Play"));
        }
    }
}

/// The ball's part in the rules: the points it scores.
pub struct BallSystem;

impl BallSystem {
    /// The ball has left the window through `exit` (the drawing side moves
    /// and bounces it, and reports the edge): a point to the player on the
    /// other side.
    pub fn update_state(&self, exit: Option<Side>, state: &mut State, events: &mut Vec<Event>)
        requires
            exit == Some(Side::Right) ==> old(state).player1.score < u32::MAX,
            exit == Some(Side::Left) ==> old(state).player2.score < u32::MAX,
        ensures
            final(state)@ == score_step(old(state)@, exit).0,
            final(events)@ == old(events)@ + score_step(old(state)@, exit).1,
    {
        match exit {
            Some(Side::Right) => {
                state.player1.score = state.player1.score + 1;
                if state.player1.score >= WINNING_SCORE {
                    state.game_state = GameState::GameOver;
                } else {
                    state.game_state = GameState::Serving;
                    events.push(Event::Score);
                }
            },
            Some(Side::Left) => {
                state.player2.score = state.player2.score + 1;
                if state.player2.score >= WINNING_SCORE {
                    state.game_state = GameState::GameOver;
                } else {
                    state.game_state = GameState::Serving;
                    events.push(Event::Score);
                }
            },
            None => {},
        }
    }
}

fn write_scores(state: &mut State)
    ensures
        final(state)@ == scores_written(old(state)@),
{
    let t1 = decimal_text(state.player1.score);
    let t2 = decimal_text(state.player2.score);
    state.player1_score.set_text(t1);
    state.player2_score.set_text(t2);
}

/// The serve: the ball waits in the middle, then play starts.
pub struct ServingSystem {
    last_time: std::time::Instant,
}

impl ServingSystem {
    pub fn new() -> Self {
        ServingSystem { last_time: now() }
    }

    /// Entering the serve: the wait starts over and the scores are redrawn.
    /// (Placing and launching the ball is the drawing side's part.)
    pub fn start(&mut self, state: &mut State)
        ensures
            final(state)@ == scores_written(old(state)@),
    {
        self.last_time = now();
        write_scores(state);
    }

    /// A frame of the serve, `elapsed_nanos` after it began.
    pub fn update_state_after(
        &self,
        input: &mut Input,
        state: &mut State,
        events: &mut Vec<Event>,
        elapsed_nanos: u128,
    )
        ensures
            final(state)@ == serving_step(old(state)@, *old(input), elapsed_nanos).state,
            *final(input) == serving_step(old(state)@, *old(input), elapsed_nanos).input,
            final(events)@ == old(events)@ + serving_step(
                old(state)@,
                *old(input),
                elapsed_nanos,
            ).events,
    {
        let escaped = input.esc_pressed;
        escape_to_menu(input, state, events);
        if !escaped && elapsed_nanos > SERVE_DELAY_NANOS {
            state.game_state = GameState::Playing;
        }
    }

    /// A frame of the serve, reading the clock.
    pub fn update_state(&self, input: &mut Input, state: &mut State, events: &mut Vec<Event>)
        ensures
            exists|e: u128|
                #![trigger serving_step(old(state)@, *old(input), e)]
                {
                    &&& final(state)@ == serving_step(old(state)@, *old(input), e).state
                    &&& *final(input) == serving_step(old(state)@, *old(input), e).input
                    &&& final(events)@ == old(events)@ + serving_step(
                        old(state)@,
                        *old(input),
                        e,
                    ).events
                },
    {
        let d = elapsed(&self.last_time);
        let e = as_nanos(&d);
        self.update_state_after(input, state, events, e);
    }
}

/// The game-over screen: the winner is named, then the menu returns.
pub struct GameOverSystem {
    last_time: std::time::Instant,
}

impl GameOverSystem {
    pub fn new() -> Self {
        GameOverSystem { last_time: now() }
    }

    /// Entering the screen: the wait starts over, the scores are redrawn and
    /// the winner named.
    pub fn start(&mut self, state: &mut State)
        ensures
            final(state)@ == game_over_started(old(state)@),
    {
        self.last_time = now();
        write_scores(state);
        if state.player1.score > state.player2.score {
            state.win_text.set_text(String::from_str("Player 1 wins!"));
        } else {
            state.win_text.set_text(String::from_str("Player 2 wins!"));
        }
    }

    /// A frame of the game-over screen, `elapsed_nanos` after it began.
    pub fn update_state_after(
        &self,
        input: &mut Input,
        state: &mut State,
        events: &mut Vec<Event>,
        elapsed_nanos: u128,
    )
        ensures
            final(state)@ == game_over_step(old(state)@, *old(input), elapsed_nanos).state,
            *final(input) == game_over_step(old(state)@, *old(input), elapsed_nanos).input,
            final(events)@ == old(events)@ + game_over_step(
                old(state)@,
                *old(input),
                elapsed_nanos,
            ).events,
    {
        if input.esc_pressed {
            events.push(Event::ButtonPressed);
            state.game_state = GameState::Quitting;
            input.esc_pressed = false;
        } else if elapsed_nanos > GAME_OVER_DELAY_NANOS {
            state.game_state = GameState::MainMenu;
        }
    }

    /// A frame of the game-over screen, reading the clock.
    pub fn update_state(&self, input: &mut Input, state: &mut State, events: &mut Vec<Event>)
        ensures
            exists|e: u128|
                #![trigger game_over_step(old(state)@, *old(input), e)]
                {
                    &&& final(state)@ == game_over_step(old(state)@, *old(input), e).state
                    &&& *final(input) == game_over_step(old(state)@, *old(input), e).input
                    &&& final(events)@ == old(events)@ + game_over_step(
                        old(state)@,
                        *old(input),
                        e,
                    ).events
                },
    {
        let d = elapsed(&self.last_time);
        let e = as_nanos(&d);
        self.update_state_after(input, state, events, e);
    }
}

} // verus!
