use vstd::prelude::*;

use crate::game::{entered, frame_action, frame_step, FrameAction, Setup};
use crate::input::{after_key, no_keys, Event, Input, Key};
use crate::state::{paused, GameState, StateModel};
use crate::system::{
    game_over_started, game_over_step, menu_started, menu_step, pause_started, pause_step,
    play_step, score_step, scores_written, serving_step, shown, Side, GAME_OVER_DELAY_NANOS, SERVE_DELAY_NANOS,
    WINNING_SCORE,
};

verus! {

/// The moves between screens that the game allows: from the menu to a serve
/// or out; from a serve to play or back to the menu; from play to the pause
/// screen, the next serve, the end of the game or the menu; from the pause
/// screen back to play; from the end of the game to the menu or out.
pub open spec fn flow_allows(from: GameState, to: GameState) -> bool {
    from == to || match from {
        GameState::MainMenu => to == GameState::Serving || to == GameState::Quitting,
        GameState::Serving => to == GameState::Playing || to == GameState::MainMenu,
        GameState::Playing => to == GameState::Paused || to == GameState::Serving || to
            == GameState::GameOver || to == GameState::MainMenu,
        GameState::Paused => to == GameState::Playing,
        GameState::GameOver => to == GameState::MainMenu || to == GameState::Quitting,
        GameState::Quitting => false,
    }
}

/// Each screen, run on its own screen, either stays there or moves along the
/// game's flow; losing focus moves along it from any screen.
pub proof fn lemma_screens_follow_the_flow(s: StateModel, i: Input, exit: Option<Side>, e: u128)
    ensures
        s.game_state == GameState::MainMenu ==> flow_allows(
            s.game_state,
            menu_step(s, i).state.game_state,
        ),
        s.game_state == GameState::Playing ==> flow_allows(
            s.game_state,
            play_step(s, i).state.game_state,
        ),
        s.game_state == GameState::Playing ==> flow_allows(
            s.game_state,
            score_step(s, exit).0.game_state,
        ),
        s.game_state == GameState::Paused ==> flow_allows(
            s.game_state,
            pause_step(s, i).state.game_state,
        ),
        s.game_state == GameState::Serving ==> flow_allows(
            s.game_state,
            serving_step(s, i, e).state.game_state,
        ),
        s.game_state == GameState::GameOver ==> flow_allows(
            s.game_state,
            game_over_step(s, i, e).state.game_state,
        ),
        flow_allows(s.game_state, paused(s).game_state),
{
}

/// Escape is acted on once per press: every screen that acts on it leaves it
/// used up, and leaving a serve or a rally forgets every key, so that nothing
/// held carries into the menu.
pub proof fn lemma_escape_used_once(s: StateModel, i: Input, e: u128)
    ensures
        !menu_step(s, i).input.esc_pressed,
        !play_step(s, i).input.esc_pressed,
        !serving_step(s, i, e).input.esc_pressed,
        !game_over_step(s, i, e).input.esc_pressed,
        i.esc_pressed ==> play_step(s, i).input == no_keys(),
        i.esc_pressed ==> serving_step(s, i, e).input == no_keys(),
        i.esc_pressed ==> menu_step(s, i).events[0] == Event::ButtonPressed,
        i.esc_pressed ==> play_step(s, i).events == seq![Event::ButtonPressed],
        i.esc_pressed ==> serving_step(s, i, e).events == seq![Event::ButtonPressed],
        i.esc_pressed ==> game_over_step(s, i, e).events == seq![Event::ButtonPressed],
{
}

/// Escape counts only when freshly pressed: a repeat or a release of the key
/// leaves the flags as they were.
pub proof fn lemma_escape_ignores_repeat_and_release(i: Input, repeat: bool)
    ensures
        after_key(i, Key::Escape, true, true) == i,
        after_key(i, Key::Escape, false, repeat) == i,
        after_key(i, Key::Escape, true, false).esc_pressed,
{
}

/// Whether exactly one menu entry is chosen.
pub open spec fn one_choice(s: StateModel) -> bool {
    s.play_button.focused != s.quit_button.focused
}

/// The menu always has exactly one entry chosen: entering it chooses Play,
/// and no frame on it leaves two entries or none chosen.
pub proof fn lemma_menu_keeps_one_choice(s: StateModel, i: Input)
    ensures
        one_choice(menu_started(s)),
        menu_started(s).play_button.focused,
        one_choice(s) ==> one_choice(menu_step(s, i).state),
{
}

/// Going back to the menu starts the next game clean: escape from a rally
/// returns to the menu, and entering the menu takes every point away and
/// chooses Play.
pub proof fn lemma_menu_return_starts_clean(s: StateModel, i: Input)
    requires
        i.esc_pressed,
    ensures
        play_step(s, i).state.game_state == GameState::MainMenu,
        menu_started(play_step(s, i).state).player1.score == 0,
        menu_started(play_step(s, i).state).player2.score == 0,
        menu_started(play_step(s, i).state).game_state == GameState::MainMenu,
        menu_started(play_step(s, i).state).play_button.focused,
{
}

/// A point goes to exactly one player, the one on the side the ball did not
/// leave by; scores never pass the winning score; the game is over exactly
/// when a player reaches it, and otherwise the next serve follows, announced.
pub proof fn lemma_points(s: StateModel, exit: Option<Side>)
    requires
        s.player1.score < WINNING_SCORE,
        s.player2.score < WINNING_SCORE,
    ensures
        ({
            let (t, ev) = score_step(s, exit);
            &&& t.player1.score <= WINNING_SCORE
            &&& t.player2.score <= WINNING_SCORE
            &&& t.player1.score + t.player2.score == s.player1.score + s.player2.score + (
            if exit is Some {
                1int
            } else {
                0int
            })
            &&& exit == Some(Side::Right) ==> t.player1.score == s.player1.score + 1
                && t.player2.score == s.player2.score
            &&& exit == Some(Side::Left) ==> t.player2.score == s.player2.score + 1
                && t.player1.score == s.player1.score
            &&& exit is Some ==> (t.game_state == GameState::GameOver <==> (t.player1.score
                == WINNING_SCORE || t.player2.score == WINNING_SCORE))
            &&& exit is Some && t.game_state != GameState::GameOver ==> t.game_state
                == GameState::Serving && ev == seq![Event::Score]
            &&& exit is None ==> t == s && ev.len() == 0
        }),
{
}

/// The game-over screen names the player whose point ended the game.
pub proof fn lemma_winner_is_named(s: StateModel, exit: Option<Side>)
    requires
        s.player1.score < WINNING_SCORE,
        s.player2.score < WINNING_SCORE,
        score_step(s, exit).0.game_state == GameState::GameOver,
    ensures
        exit == Some(Side::Right) ==> game_over_started(score_step(s, exit).0).win_text.text
            == "Player 1 wins!"@,
        exit == Some(Side::Left) ==> game_over_started(score_step(s, exit).0).win_text.text
            == "Player 2 wins!"@,
{
}

/// Losing focus pauses only a game in play: a second loss changes nothing
/// more, and on any other screen it changes nothing at all.
pub proof fn lemma_pause_only_in_play(s: StateModel)
    ensures
        paused(paused(s)) == paused(s),
        s.game_state != GameState::Playing ==> paused(s) == s,
        s.game_state == GameState::Playing ==> paused(s).game_state == GameState::Paused,
{
}

/// Resuming from the pause screen returns to play and puts the menu's own
/// words back, whatever the pause screen showed before.
pub proof fn lemma_resume_restores_the_menu_words(s: StateModel, i: Input)
    requires
        i.enter_pressed,
    ensures
        pause_step(pause_started(s), i).state.game_state == GameState::Playing,
        pause_step(pause_started(s), i).state.title_text.text == "PONG"@,
        pause_step(pause_started(s), i).state.play_button.text == "Play"@,
        pause_step(pause_started(s), i).events == seq![Event::ButtonPressed],
{
}

/// What is shown depends on the screen alone: showing twice is showing once,
/// the ball is shown only while it is in play or about to be served, and the
/// quit entry only on the menu.
pub proof fn lemma_shown_follows_the_screen(s: StateModel, t: StateModel)
    ensures
        shown(shown(s)) == shown(s),
        shown(s).ball.visible <==> (s.game_state == GameState::Serving || s.game_state
            == GameState::Playing),
        shown(s).quit_button.visible <==> s.game_state == GameState::MainMenu,
        s.game_state == t.game_state ==> {
            &&& shown(s).ball == shown(t).ball
            &&& shown(s).player1.visible == shown(t).player1.visible
            &&& shown(s).player2.visible == shown(t).player2.visible
            &&& shown(s).title_text.visible == shown(t).title_text.visible
            &&& shown(s).play_button.visible == shown(t).play_button.visible
            &&& shown(s).quit_button.visible == shown(t).quit_button.visible
            &&& shown(s).player1_score.visible == shown(t).player1_score.visible
            &&& shown(s).player2_score.visible == shown(t).player2_score.visible
            &&& shown(s).win_text.visible == shown(t).win_text.visible
        },
{
}

/// The ball waits in the middle for two seconds before play starts, and the
/// winner is named for five seconds before the menu returns; until then, with
/// escape not pressed, a frame changes nothing.
pub proof fn lemma_waits(s: StateModel, i: Input, e: u128)
    requires
        !i.esc_pressed,
    ensures
        e <= SERVE_DELAY_NANOS ==> serving_step(s, i, e).state == s,
        e > SERVE_DELAY_NANOS ==> serving_step(s, i, e).state.game_state == GameState::Playing,
        e <= GAME_OVER_DELAY_NANOS ==> game_over_step(s, i, e).state == s,
        e > GAME_OVER_DELAY_NANOS ==> game_over_step(s, i, e).state.game_state
            == GameState::MainMenu,
        serving_step(s, i, e).events.len() == 0,
        game_over_step(s, i, e).events.len() == 0,
{
}

/// Escape wins over the timers: on the serve it returns to the menu and on
/// the game-over screen it quits, however long the screen has been up.
pub proof fn lemma_escape_beats_the_timer(s: StateModel, i: Input, e: u128)
    requires
        i.esc_pressed,
    ensures
        serving_step(s, i, e).state.game_state == GameState::MainMenu,
        game_over_step(s, i, e).state.game_state == GameState::Quitting,
{
}

/// A whole frame follows the game's flow: the current screen's frame, the
/// ball's point if a rally went on, and the entry of the screen reached, on
/// whatever screen it began. Entering a screen and showing it never change
/// the screen.
pub proof fn lemma_frames_follow_the_flow(
    s: StateModel,
    i: Input,
    e: u128,
    exit: Option<Side>,
)
    ensures
        flow_allows(s.game_state, frame_step(s, i, e).state.game_state),
        ({
            let t = frame_step(s, i, e).state;
            frame_action(s.game_state, t.game_state) == FrameAction::Rally ==> flow_allows(
                s.game_state,
                score_step(t, exit).0.game_state,
            )
        }),
        entered(s.game_state, s).0 == s,
        forall|from: GameState| #[trigger] entered(from, s).0.game_state == s.game_state,
        shown(s).game_state == s.game_state,
{
}

/// Entering the menu from any other screen always starts the next game
/// clean: no points, Play chosen, and the paddles sent back to the middle.
/// Entering the serve always redraws the scores and serves the ball.
pub proof fn lemma_entering_a_screen(from: GameState, s: StateModel)
    requires
        from != s.game_state,
    ensures
        s.game_state == GameState::MainMenu ==> {
            &&& entered(from, s).0.player1.score == 0
            &&& entered(from, s).0.player2.score == 0
            &&& entered(from, s).0.play_button.focused
            &&& !entered(from, s).0.quit_button.focused
            &&& entered(from, s).1 == Setup::CenterPaddles
        },
        s.game_state == GameState::Serving ==> entered(from, s).0 == scores_written(s)
            && entered(from, s).1 == Setup::Serve,
{
}

} // verus!
