use vstd::prelude::*;

use crate::input::{after_key, no_keys, Event, Input, Key};
use crate::state::{initial_state, paused, GameState, State, StateModel};
use crate::system::{
    game_over_started, game_over_step, menu_started, menu_step, pause_started, pause_step,
    play_step, score_step, scores_written, serving_step, shown, BallSystem, GameOverSystem,
    MenuSystem, PauseSystem, PlaySystem, ServingSystem, Side, Step, VisibilitySystem,
};

verus! {

/// What the drawing side does after the rules have run a frame.
#[derive(Debug, Clone, Copy, PartialEq, Eq, Structural)]
pub enum FrameAction {
    /// Nothing moves.
    Still,
    /// A rally goes on: move the paddles from the keys, then the ball, and
    /// report the edge the ball has gone past, if any.
    Rally,
}

/// What the drawing side does on entering a screen.
#[derive(Debug, Clone, Copy, PartialEq, Eq, Structural)]
pub enum Setup {
    Nothing,
    /// Both paddles back to the middle (a new game is about to start).
    CenterPaddles,
    /// The ball to the middle, sent toward the player who conceded.
    Serve,
}

/// A frame of whichever screen the game is on, `elapsed` nanoseconds after
/// the serve or game-over screen began (read only on those two screens).
pub open spec fn frame_step(s: StateModel, i: Input, elapsed: u128) -> Step {
    match s.game_state {
        GameState::MainMenu => menu_step(s, i),
        GameState::Serving => serving_step(s, i, elapsed),
        GameState::Playing => play_step(s, i),
        GameState::Paused => pause_step(s, i),
        GameState::GameOver => game_over_step(s, i, elapsed),
        GameState::Quitting => Step { state: s, input: i, events: Seq::empty() },
    }
}

/// A rally goes on exactly when a frame of play leaves the game in play.
pub open spec fn frame_action(from: GameState, to: GameState) -> FrameAction {
    if from == GameState::Playing && to == GameState::Playing {
        FrameAction::Rally
    } else {
        FrameAction::Still
    }
}

/// The game having moved from screen `from` to `s.game_state`: the new
/// screen's entry, if the screen changed, and what the drawing side sets up.
pub open spec fn entered(from: GameState, s: StateModel) -> (StateModel, Setup) {
    if s.game_state == from {
        (s, Setup::Nothing)
    } else {
        match s.game_state {
            GameState::MainMenu => (menu_started(s), Setup::CenterPaddles),
            GameState::Serving => (scores_written(s), Setup::Serve),
            GameState::Paused => (pause_started(s), Setup::Nothing),
            GameState::GameOver => (game_over_started(s), Setup::Nothing),
            _ => (s, Setup::Nothing),
        }
    }
}

/// The rules of a whole game: its state, the keyboard, and the clocks of the
/// two screens that wait.
pub struct PongGame {
    pub state: State,
    pub input: Input,
    pub serving: ServingSystem,
    pub game_over: GameOverSystem,
}

impl PongGame {
    /// A game on the main menu, before it is opened, with no key down.
    pub fn new() -> (g: PongGame)
        ensures
            g.state@ == initial_state(),
            g.input == no_keys(),
    {
        PongGame {
            state: State::new(),
            input: Input::new(),
            serving: ServingSystem::new(),
            game_over: GameOverSystem::new(),
        }
    }

    /// Opens the game on its menu: no points, Play chosen, the menu shown.
    pub fn open(&mut self) -> (setup: Setup)
        ensures
            final(self).state@ == shown(menu_started(old(self).state@)),
            final(self).input == old(self).input,
            setup == Setup::CenterPaddles,
    {
        MenuSystem.start(&mut self.state);
        VisibilitySystem.update_state(&mut self.state);
        Setup::CenterPaddles
    }

    /// Records that `key` went down or came up.
    pub fn process_keyboard(&mut self, key: Key, pressed: bool, repeat: bool)
        ensures
            final(self).input == after_key(old(self).input, key, pressed, repeat),
            final(self).state@ == old(self).state@,
    {
        self.input.process_keyboard(key, pressed, repeat);
    }

    /// Whether the players have chosen to quit.
    pub fn is_quitting(&self) -> (q: bool)
        ensures
            q == (self.state.game_state == GameState::Quitting),
    {
        self.state.game_state == GameState::Quitting
    }

    /// The decisions of a frame of the current screen, `elapsed_nanos` after
    /// the serve or game-over screen began.
    pub fn frame_after(&mut self, events: &mut Vec<Event>, elapsed_nanos: u128) -> (action:
        FrameAction)
        ensures
            final(self).state@ == frame_step(old(self).state@, old(self).input, elapsed_nanos).state,
            final(self).input == frame_step(old(self).state@, old(self).input, elapsed_nanos).input,
            final(events)@ == old(events)@ + frame_step(
                old(self).state@,
                old(self).input,
                elapsed_nanos,
            ).events,
            action == frame_action(old(self).state.game_state, final(self).state.game_state),
    {
        let before = self.state.game_state;
        match before {
            GameState::MainMenu => MenuSystem.update_state(&mut self.input, &mut self.state, events),
            GameState::Serving => self.serving.update_state_after(
                &mut self.input,
                &mut self.state,
                events,
                elapsed_nanos,
            ),
            GameState::Playing => PlaySystem.update_state(&mut self.input, &mut self.state, events),
            GameState::Paused => PauseSystem.update_state(&self.input, &mut self.state, events),
            GameState::GameOver => self.game_over.update_state_after(
                &mut self.input,
                &mut self.state,
                events,
                elapsed_nanos,
            ),
            GameState::Quitting => {},
        }
        if before == GameState::Playing && self.state.game_state == GameState::Playing {
            FrameAction::Rally
        } else {
            FrameAction::Still
        }
    }

    /// The decisions of a frame of the current screen, reading the clock of
    /// the serve or game-over screen.
    pub fn frame(&mut self, events: &mut Vec<Event>) -> (action: FrameAction)
        ensures
            exists|e: u128|
                #![trigger frame_step(old(self).state@, old(self).input, e)]
                {
                    &&& final(self).state@ == frame_step(old(self).state@, old(self).input, e).state
                    &&& final(self).input == frame_step(old(self).state@, old(self).input, e).input
                    &&& final(events)@ == old(events)@ + frame_step(
                        old(self).state@,
                        old(self).input,
                        e,
                    ).events
                },
            action == frame_action(old(self).state.game_state, final(self).state.game_state),
    {
        let before = self.state.game_state;
        let ghost s0 = self.state@;
        let ghost i0 = self.input;
        let ghost ev0 = events@;
        match before {
            GameState::Serving => {
                self.serving.update_state(&mut self.input, &mut self.state, events);
                proof {
                    let e = choose|e: u128|
                        #![trigger serving_step(s0, i0, e)]
                        {
                            &&& self.state@ == serving_step(s0, i0, e).state
                            &&& self.input == serving_step(s0, i0, e).input
                            &&& events@ == ev0 + serving_step(s0, i0, e).events
                        };
                    assert(frame_step(s0, i0, e) == serving_step(s0, i0, e));
                }
            },
            GameState::GameOver => {
                self.game_over.update_state(&mut self.input, &mut self.state, events);
                proof {
                    let e = choose|e: u128|
                        #![trigger game_over_step(s0, i0, e)]
                        {
                            &&& self.state@ == game_over_step(s0, i0, e).state
                            &&& self.input == game_over_step(s0, i0, e).input
                            &&& events@ == ev0 + game_over_step(s0, i0, e).events
                        };
                    assert(frame_step(s0, i0, e) == game_over_step(s0, i0, e));
                }
            },
            _ => {
                self.frame_after(events, 0);
                assert(frame_step(old(self).state@, old(self).input, 0) == frame_step(
                    old(self).state@,
                    old(self).input,
                    0,
                ));
            },
        }
        if before == GameState::Playing && self.state.game_state == GameState::Playing {
            FrameAction::Rally
        } else {
            FrameAction::Still
        }
    }

    /// The ball has left the window through `exit`, as the drawing side found.
    pub fn ball_left(&mut self, exit: Option<Side>, events: &mut Vec<Event>)
        requires
            exit == Some(Side::Right) ==> old(self).state.player1.score < u32::MAX,
            exit == Some(Side::Left) ==> old(self).state.player2.score < u32::MAX,
        ensures
            final(self).state@ == score_step(old(self).state@, exit).0,
            final(self).input == old(self).input,
            final(events)@ == old(events)@ + score_step(old(self).state@, exit).1,
    {
        BallSystem.update_state(exit, &mut self.state, events);
    }

    /// Ends a frame that began on screen `from`: enters the new screen if the
    /// screen changed, then shows what the screen shows.
    pub fn finish_frame(&mut self, from: GameState) -> (setup: Setup)
        ensures
            final(self).state@ == shown(entered(from, old(self).state@).0),
            final(self).input == old(self).input,
            setup == entered(from, old(self).state@).1,
    {
        let now = self.state.game_state;
        let setup = if now == from {
            Setup::Nothing
        } else {
            match now {
                GameState::MainMenu => {
                    MenuSystem.start(&mut self.state);
                    Setup::CenterPaddles
                },
                GameState::Serving => {
                    self.serving.start(&mut self.state);
                    Setup::Serve
                },
                GameState::Paused => {
                    PauseSystem.start(&mut self.state);
                    Setup::Nothing
                },
                GameState::GameOver => {
                    self.game_over.start(&mut self.state);
                    Setup::Nothing
                },
                _ => Setup::Nothing,
            }
        };
        VisibilitySystem.update_state(&mut self.state);
        setup
    }

    /// The window gained or lost focus: losing it pauses a game in play.
    pub fn focus_changed(&mut self, focus: bool) -> (setup: Setup)
        ensures
            focus ==> final(self).state@ == old(self).state@ && setup == Setup::Nothing,
            !focus ==> final(self).state@ == shown(
                entered(old(self).state.game_state, paused(old(self).state@)).0,
            ),
            !focus ==> setup == entered(old(self).state.game_state, paused(old(self).state@)).1,
            final(self).input == old(self).input,
    {
        if focus {
            Setup::Nothing
        } else {
            let from = self.state.game_state;
            self.state.pause_game();
            self.finish_frame(from)
        }
    }
}

} // verus!
