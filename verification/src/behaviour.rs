use vstd::prelude::*;

use crate::game::{entered, frame_action, frame_step, FrameAction, Setup};
use crate::input::{after_key, no_keys, Event, Input, Key};
use crate::state::{
    drawn_pieces_of, drawn_texts_of, if_shown, initial_state, GameState, Piece, StateModel,
    TextSlot,
};
use crate::system::{
    menu_started, score_step, scores_written, shown, Side, GAME_OVER_DELAY_NANOS, SERVE_DELAY_NANOS, WINNING_SCORE,
};
use crate::text::{decimal, digit_char};

verus! {

/// The paddles, ball, score lines and win line of `t` are those of `s`.
pub open spec fn pieces_kept(s: StateModel, t: StateModel) -> bool {
    &&& t.player1 == s.player1
    &&& t.player2 == s.player2
    &&& t.ball == s.ball
    &&& t.player1_score == s.player1_score
    &&& t.player2_score == s.player2_score
    &&& t.win_text == s.win_text
}

/// The title and both menu lines of `t` are those of `s`.
pub open spec fn menu_lines_kept(s: StateModel, t: StateModel) -> bool {
    &&& t.title_text == s.title_text
    &&& t.play_button == s.play_button
    &&& t.quit_button == s.quit_button
}

/// Every key but escape reads in `j` as in `i`.
pub open spec fn held_keys_kept(i: Input, j: Input) -> bool {
    &&& j.enter_pressed == i.enter_pressed
    &&& j.p1_up_pressed == i.p1_up_pressed
    &&& j.p1_down_pressed == i.p1_down_pressed
    &&& j.p2_up_pressed == i.p2_up_pressed
    &&& j.p2_down_pressed == i.p2_down_pressed
}

/// No key reads as down.
pub open spec fn all_keys_up(j: Input) -> bool {
    &&& !j.esc_pressed
    &&& !j.enter_pressed
    &&& !j.p1_up_pressed
    &&& !j.p1_down_pressed
    &&& !j.p2_up_pressed
    &&& !j.p2_down_pressed
}

/// On the menu, either player's up key with no down key moves the choice
/// from Quit to Play, and the move is announced.
pub proof fn lemma_up_chooses_play(s: StateModel, i: Input, e: u128)
    requires
        s.game_state == GameState::MainMenu,
        s.quit_button.focused,
        !i.p1_down_pressed,
        !i.p2_down_pressed,
        i.p1_up_pressed || i.p2_up_pressed,
    ensures
        frame_step(s, i, e).state.play_button.focused,
        !frame_step(s, i, e).state.quit_button.focused,
        frame_step(s, i, e).events.contains(Event::FocusChanged),
{
    assert(frame_step(s, i, e).events[if i.esc_pressed { 1int } else { 0int }] == Event::FocusChanged);
}

/// A frame of the main menu. Escape quits and is used up. Either player's
/// down key moves the choice from Play to Quit; otherwise either player's up
/// key moves it from Quit to Play. Enter then serves from Play or quits from
/// Quit. The events tell of each of these in that order; nothing else of the
/// state or the keys changes.
pub proof fn lemma_menu_frame(s: StateModel, i: Input, e: u128)
    requires
        s.game_state == GameState::MainMenu,
    ensures
        ({
            let t = frame_step(s, i, e);
            let down = i.p1_down_pressed || i.p2_down_pressed;
            let up = i.p1_up_pressed || i.p2_up_pressed;
            let to_quit = s.play_button.focused && down;
            let to_play = !to_quit && s.quit_button.focused && up;
            let chose = i.enter_pressed && (t.state.play_button.focused
                || t.state.quit_button.focused);
            &&& pieces_kept(s, t.state)
            &&& t.state.title_text == s.title_text
            &&& t.state.play_button.text == s.play_button.text
            &&& t.state.play_button.visible == s.play_button.visible
            &&& t.state.quit_button.text == s.quit_button.text
            &&& t.state.quit_button.visible == s.quit_button.visible
            &&& !t.input.esc_pressed
            &&& held_keys_kept(i, t.input)
            &&& to_quit ==> !t.state.play_button.focused && t.state.quit_button.focused
            &&& to_play ==> t.state.play_button.focused && !t.state.quit_button.focused
            &&& !to_quit && !to_play ==> t.state.play_button.focused == s.play_button.focused
                && t.state.quit_button.focused == s.quit_button.focused
            &&& i.enter_pressed && t.state.play_button.focused ==> t.state.game_state
                == GameState::Serving
            &&& i.enter_pressed && !t.state.play_button.focused && t.state.quit_button.focused
                ==> t.state.game_state == GameState::Quitting
            &&& !chose && i.esc_pressed ==> t.state.game_state == GameState::Quitting
            &&& !chose && !i.esc_pressed ==> t.state.game_state == GameState::MainMenu
            &&& t.events == (if i.esc_pressed {
                seq![Event::ButtonPressed]
            } else {
                Seq::empty()
            }) + (if to_quit || to_play {
                seq![Event::FocusChanged]
            } else {
                Seq::empty()
            }) + (if chose {
                seq![Event::ButtonPressed]
            } else {
                Seq::empty()
            })
        }),
{
}

/// A frame of the pause screen: enter on Resume returns to play with the
/// menu's own words, PONG and Play, and says so; any other frame changes
/// nothing. The keys are left as they are.
pub proof fn lemma_pause_frame(s: StateModel, i: Input, e: u128)
    requires
        s.game_state == GameState::Paused,
    ensures
        ({
            let t = frame_step(s, i, e);
            &&& t.input == i
            &&& s.play_button.focused && i.enter_pressed ==> {
                &&& t.state.game_state == GameState::Playing
                &&& t.state.title_text.text == "PONG"@
                &&& t.state.play_button.text == "Play"@
                &&& t.state.title_text.visible == s.title_text.visible
                &&& t.state.play_button.visible == s.play_button.visible
                &&& t.state.play_button.focused == s.play_button.focused
                &&& t.state.quit_button == s.quit_button
                &&& pieces_kept(s, t.state)
                &&& t.events == seq![Event::ButtonPressed]
            }
            &&& !(s.play_button.focused && i.enter_pressed) ==> t.state == s && t.events.len()
                == 0
        }),
{
}

/// A frame of a rally: escape returns to the menu, forgets every key and
/// says so, and the rally stops; without escape nothing changes and the
/// rally goes on.
pub proof fn lemma_play_frame(s: StateModel, i: Input, e: u128)
    requires
        s.game_state == GameState::Playing,
    ensures
        ({
            let t = frame_step(s, i, e);
            &&& pieces_kept(s, t.state)
            &&& menu_lines_kept(s, t.state)
            &&& i.esc_pressed ==> t.state.game_state == GameState::MainMenu && all_keys_up(
                t.input,
            ) && t.events == seq![Event::ButtonPressed] && frame_action(
                s.game_state,
                t.state.game_state,
            ) == FrameAction::Still
            &&& !i.esc_pressed ==> t.state == s && t.input == i && t.events.len() == 0
                && frame_action(s.game_state, t.state.game_state) == FrameAction::Rally
        }),
{
}

/// A frame of the serve: escape returns to the menu, forgets every key and
/// says so, whatever the time; otherwise play starts once more than two
/// seconds have passed, and before that nothing changes.
pub proof fn lemma_serve_frame(s: StateModel, i: Input, e: u128)
    requires
        s.game_state == GameState::Serving,
    ensures
        SERVE_DELAY_NANOS == 2_000_000_000,
        ({
            let t = frame_step(s, i, e);
            &&& pieces_kept(s, t.state)
            &&& menu_lines_kept(s, t.state)
            &&& frame_action(s.game_state, t.state.game_state) == FrameAction::Still
            &&& i.esc_pressed ==> t.state.game_state == GameState::MainMenu && all_keys_up(
                t.input,
            ) && t.events == seq![Event::ButtonPressed]
            &&& !i.esc_pressed && e > 2_000_000_000 ==> t.state.game_state
                == GameState::Playing && t.input == i && t.events.len() == 0
            &&& !i.esc_pressed && e <= 2_000_000_000 ==> t.state == s && t.input == i
                && t.events.len() == 0
        }),
{
}

/// A frame of the game-over screen: escape quits, is used up and is
/// announced, whatever the time; otherwise the menu returns once more than
/// five seconds have passed, and before that nothing changes.
pub proof fn lemma_game_over_frame(s: StateModel, i: Input, e: u128)
    requires
        s.game_state == GameState::GameOver,
    ensures
        GAME_OVER_DELAY_NANOS == 5_000_000_000,
        ({
            let t = frame_step(s, i, e);
            &&& pieces_kept(s, t.state)
            &&& menu_lines_kept(s, t.state)
            &&& !t.input.esc_pressed
            &&& held_keys_kept(i, t.input)
            &&& frame_action(s.game_state, t.state.game_state) == FrameAction::Still
            &&& i.esc_pressed ==> t.state.game_state == GameState::Quitting && t.events == seq![
                Event::ButtonPressed,
            ]
            &&& !i.esc_pressed && e > 5_000_000_000 ==> t.state.game_state
                == GameState::MainMenu && t.events.len() == 0
            &&& !i.esc_pressed && e <= 5_000_000_000 ==> t.state == s && t.events.len() == 0
        }),
{
}

/// Once quitting, a frame changes nothing.
pub proof fn lemma_quitting_frame(s: StateModel, i: Input, e: u128)
    requires
        s.game_state == GameState::Quitting,
    ensures
        frame_step(s, i, e).state == s,
        frame_step(s, i, e).input == i,
        frame_step(s, i, e).events.len() == 0,
        frame_action(s.game_state, frame_step(s, i, e).state.game_state) == FrameAction::Still,
{
}

/// The paddles and both score lines are shown exactly on the screens of a
/// game (serve, rally, game over); the ball exactly during a serve or a
/// rally; the title and Play on the menu and the pause screen; Quit on the
/// menu; the win line at the end of a game. Nothing but what is shown
/// changes.
pub proof fn lemma_what_each_screen_shows(s: StateModel)
    ensures
        ({
            let t = shown(s);
            let g = s.game_state;
            let game = g == GameState::Serving || g == GameState::Playing || g
                == GameState::GameOver;
            &&& t.player1.visible <==> game
            &&& t.player2.visible <==> game
            &&& t.player1_score.visible <==> game
            &&& t.player2_score.visible <==> game
            &&& t.ball.visible <==> (g == GameState::Serving || g == GameState::Playing)
            &&& t.title_text.visible <==> (g == GameState::MainMenu || g == GameState::Paused)
            &&& t.play_button.visible <==> (g == GameState::MainMenu || g == GameState::Paused)
            &&& t.quit_button.visible <==> g == GameState::MainMenu
            &&& t.win_text.visible <==> g == GameState::GameOver
            &&& t.game_state == g
            &&& t.player1.score == s.player1.score
            &&& t.player2.score == s.player2.score
            &&& t.title_text.text == s.title_text.text && t.title_text.focused
                == s.title_text.focused
            &&& t.play_button.text == s.play_button.text && t.play_button.focused
                == s.play_button.focused
            &&& t.quit_button.text == s.quit_button.text && t.quit_button.focused
                == s.quit_button.focused
            &&& t.player1_score.text == s.player1_score.text
            &&& t.player2_score.text == s.player2_score.text
            &&& t.win_text.text == s.win_text.text
        }),
{
}

/// Each held key reads as its last press or release and no other flag
/// moves; escape is set by a fresh press only and nothing here clears it.
pub proof fn lemma_keys_follow_the_keyboard(i: Input, pressed: bool, repeat: bool)
    ensures
        after_key(i, Key::W, pressed, repeat) == (Input { p1_up_pressed: pressed, ..i }),
        after_key(i, Key::S, pressed, repeat) == (Input { p1_down_pressed: pressed, ..i }),
        after_key(i, Key::Up, pressed, repeat) == (Input { p2_up_pressed: pressed, ..i }),
        after_key(i, Key::Down, pressed, repeat) == (Input { p2_down_pressed: pressed, ..i }),
        after_key(i, Key::Enter, pressed, repeat) == (Input { enter_pressed: pressed, ..i }),
        after_key(i, Key::Escape, pressed, repeat) == (Input {
            esc_pressed: i.esc_pressed || (pressed && !repeat),
            ..i
        }),
{
}

/// A point, for any scores that can still grow: the ball past the right edge
/// adds one to the left player's score, past the left edge one to the right
/// player's; the game is over once that score reaches five, and otherwise a
/// serve follows and is announced. Nothing else changes, and a ball still in
/// the window changes nothing.
pub proof fn lemma_any_point(s: StateModel, exit: Option<Side>)
    requires
        s.player1.score < u32::MAX,
        s.player2.score < u32::MAX,
    ensures
        WINNING_SCORE == 5,
        ({
            let (t, ev) = score_step(s, exit);
            &&& menu_lines_kept(s, t)
            &&& t.ball == s.ball
            &&& t.player1.visible == s.player1.visible
            &&& t.player2.visible == s.player2.visible
            &&& t.player1_score == s.player1_score
            &&& t.player2_score == s.player2_score
            &&& t.win_text == s.win_text
            &&& exit == Some(Side::Right) ==> t.player1.score == s.player1.score + 1
                && t.player2.score == s.player2.score
            &&& exit == Some(Side::Left) ==> t.player2.score == s.player2.score + 1
                && t.player1.score == s.player1.score
            &&& exit == Some(Side::Right) && s.player1.score + 1 >= 5 ==> t.game_state
                == GameState::GameOver && ev.len() == 0
            &&& exit == Some(Side::Right) && s.player1.score + 1 < 5 ==> t.game_state
                == GameState::Serving && ev == seq![Event::Score]
            &&& exit == Some(Side::Left) && s.player2.score + 1 >= 5 ==> t.game_state
                == GameState::GameOver && ev.len() == 0
            &&& exit == Some(Side::Left) && s.player2.score + 1 < 5 ==> t.game_state
                == GameState::Serving && ev == seq![Event::Score]
            &&& exit is None ==> t == s && ev.len() == 0
        }),
{
}

/// Entering a screen: the pause screen reads Paused / Resume with Resume
/// chosen; the end of a game redraws both scores in decimal and names the
/// player with more points (the right player on a tie); play and quitting
/// change nothing; staying on a screen changes nothing.
pub proof fn lemma_entering_other_screens(from: GameState, s: StateModel)
    ensures
        from == s.game_state ==> entered(from, s) == (s, Setup::Nothing),
        from != s.game_state && s.game_state == GameState::Paused ==> {
            let t = entered(from, s).0;
            &&& t.title_text.text == "Paused"@
            &&& t.play_button.text == "Resume"@
            &&& t.play_button.focused
            &&& t.game_state == s.game_state
            &&& pieces_kept(s, t)
            &&& t.quit_button == s.quit_button
            &&& entered(from, s).1 == Setup::Nothing
        },
        from != s.game_state && s.game_state == GameState::GameOver ==> {
            let t = entered(from, s).0;
            &&& t.player1_score.text == decimal(s.player1.score as nat)
            &&& t.player2_score.text == decimal(s.player2.score as nat)
            &&& s.player1.score > s.player2.score ==> t.win_text.text == "Player 1 wins!"@
            &&& s.player1.score <= s.player2.score ==> t.win_text.text == "Player 2 wins!"@
            &&& t.player1 == s.player1 && t.player2 == s.player2 && t.ball == s.ball
            &&& menu_lines_kept(s, t)
            &&& t.game_state == s.game_state
            &&& entered(from, s).1 == Setup::Nothing
        },
        from != s.game_state && (s.game_state == GameState::Playing || s.game_state
            == GameState::Quitting) ==> entered(from, s) == (s, Setup::Nothing),
{
}

/// The number a string of decimal digits stands for.
pub open spec fn digits_value(cs: Seq<char>) -> int
    decreases cs.len(),
{
    if cs.len() == 0 {
        0
    } else {
        digits_value(cs.drop_last()) * 10 + (cs.last() as int - 48)
    }
}

/// A score's text is its number in decimal: digits only, at least one, no
/// leading zero, and reading back as the score.
pub proof fn lemma_decimal_reads_back(n: nat)
    ensures
        decimal(n).len() >= 1,
        n >= 10 ==> decimal(n).len() > 1,
        forall|k: int| 0 <= k < decimal(n).len() ==> '0' <= #[trigger] decimal(n)[k] <= '9',
        decimal(n).len() > 1 ==> decimal(n)[0] != '0',
        digits_value(decimal(n)) == n,
    decreases n,
{
    if n < 10 {
        assert(digit_char(n) as int == n + 48);
        assert(decimal(n).drop_last() =~= Seq::<char>::empty());
        assert(digits_value(decimal(n)) == digits_value(decimal(n).drop_last()) * 10 + (
        decimal(n).last() as int - 48));
    } else {
        lemma_decimal_reads_back(n / 10);
        let d = decimal(n / 10);
        let c = digit_char(n % 10);
        assert(c as int == n % 10 + 48);
        assert(decimal(n) == d.push(c));
        assert(decimal(n).drop_last() =~= d);
        assert(decimal(n).last() == c);
        assert(decimal(n)[0] == d[0]);
        if n / 10 < 10 {
            assert(d[0] == digit_char(n / 10));
            assert(digit_char(n / 10) as int == n / 10 + 48);
        }
        assert(n == (n / 10) * 10 + n % 10);
        assert(digits_value(decimal(n)) == digits_value(d) * 10 + (c as int - 48));
    }
}

/// The order pieces are drawn in: left paddle, right paddle, ball.
pub open spec fn piece_rank(p: Piece) -> int {
    match p {
        Piece::Player1 => 0,
        Piece::Player2 => 1,
        Piece::Ball => 2,
    }
}

/// The order lines are drawn in.
pub open spec fn slot_rank(t: TextSlot) -> int {
    match t {
        TextSlot::Title => 0,
        TextSlot::PlayButton => 1,
        TextSlot::QuitButton => 2,
        TextSlot::Player1Score => 3,
        TextSlot::Player2Score => 4,
        TextSlot::WinText => 5,
    }
}

/// `xs` is in strictly rising `rank`, each rank below `hi`.
pub open spec fn rising_below<T>(xs: Seq<T>, rank: spec_fn(T) -> int, hi: int) -> bool {
    &&& forall|a: int, b: int| 0 <= a < b < xs.len() ==> rank(#[trigger] xs[a]) < rank(#[trigger] xs[b])
    &&& forall|a: int| 0 <= a < xs.len() ==> rank(#[trigger] xs[a]) < hi
}

proof fn lemma_append_shown<T>(xs: Seq<T>, shown: bool, x: T, rank: spec_fn(T) -> int)
    requires
        rising_below(xs, rank, rank(x)),
    ensures
        rising_below(xs + if_shown(shown, x), rank, rank(x) + 1),
        (xs + if_shown(shown, x)).len() <= xs.len() + 1,
        forall|y: T| #[trigger] (xs + if_shown(shown, x)).contains(y) <==> (xs.contains(y) || (
        shown && y == x)),
{
    let ys = xs + if_shown(shown, x);
    assert forall|y: T| #[trigger] ys.contains(y) <==> (xs.contains(y) || (shown && y == x)) by {
        if ys.contains(y) {
            let k = choose|k: int| 0 <= k < ys.len() && ys[k] == y;
            if k < xs.len() {
                assert(xs[k] == y);
            }
        }
        if xs.contains(y) {
            let k = choose|k: int| 0 <= k < xs.len() && xs[k] == y;
            assert(ys[k] == y);
        }
        if shown && y == x {
            assert(ys[xs.len() as int] == y);
        }
    }
}

/// Exactly the shown pieces are drawn, in drawing order (so each once).
#[verifier::spinoff_prover]
pub proof fn lemma_drawn_pieces_are_shown(s: StateModel)
    ensures
        drawn_pieces_of(s).contains(Piece::Player1) <==> s.player1.visible,
        drawn_pieces_of(s).contains(Piece::Player2) <==> s.player2.visible,
        drawn_pieces_of(s).contains(Piece::Ball) <==> s.ball.visible,
        forall|a: int, b: int|
            0 <= a < b < drawn_pieces_of(s).len() ==> piece_rank(#[trigger] drawn_pieces_of(s)[a])
                < piece_rank(#[trigger] drawn_pieces_of(s)[b]),
{
    let pr = |p: Piece| piece_rank(p);
    let p0: Seq<Piece> = Seq::empty();
    lemma_append_shown(p0, s.player1.visible, Piece::Player1, pr);
    let p1 = p0 + if_shown(s.player1.visible, Piece::Player1);
    lemma_append_shown(p1, s.player2.visible, Piece::Player2, pr);
    let p2 = p1 + if_shown(s.player2.visible, Piece::Player2);
    lemma_append_shown(p2, s.ball.visible, Piece::Ball, pr);
    let p3 = p2 + if_shown(s.ball.visible, Piece::Ball);
    assert(p1 =~= if_shown(s.player1.visible, Piece::Player1));
    assert(p3 =~= drawn_pieces_of(s));
}

/// Exactly the shown lines are drawn, in drawing order (so each once).
#[verifier::spinoff_prover]
#[verifier::rlimit(40)]
pub proof fn lemma_drawn_texts_are_shown(s: StateModel)
    ensures
        drawn_texts_of(s).contains(TextSlot::Title) <==> s.title_text.visible,
        drawn_texts_of(s).contains(TextSlot::PlayButton) <==> s.play_button.visible,
        drawn_texts_of(s).contains(TextSlot::QuitButton) <==> s.quit_button.visible,
        drawn_texts_of(s).contains(TextSlot::Player1Score) <==> s.player1_score.visible,
        drawn_texts_of(s).contains(TextSlot::Player2Score) <==> s.player2_score.visible,
        drawn_texts_of(s).contains(TextSlot::WinText) <==> s.win_text.visible,
        forall|a: int, b: int|
            0 <= a < b < drawn_texts_of(s).len() ==> slot_rank(#[trigger] drawn_texts_of(s)[a])
                < slot_rank(#[trigger] drawn_texts_of(s)[b]),
{
    let tr = |t: TextSlot| slot_rank(t);
    let t0: Seq<TextSlot> = Seq::empty();
    lemma_append_shown(t0, s.title_text.visible, TextSlot::Title, tr);
    let t1 = t0 + if_shown(s.title_text.visible, TextSlot::Title);
    lemma_append_shown(t1, s.play_button.visible, TextSlot::PlayButton, tr);
    let t2 = t1 + if_shown(s.play_button.visible, TextSlot::PlayButton);
    lemma_append_shown(t2, s.quit_button.visible, TextSlot::QuitButton, tr);
    let t3 = t2 + if_shown(s.quit_button.visible, TextSlot::QuitButton);
    lemma_append_shown(t3, s.player1_score.visible, TextSlot::Player1Score, tr);
    let t4 = t3 + if_shown(s.player1_score.visible, TextSlot::Player1Score);
    lemma_append_shown(t4, s.player2_score.visible, TextSlot::Player2Score, tr);
    let t5 = t4 + if_shown(s.player2_score.visible, TextSlot::Player2Score);
    lemma_append_shown(t5, s.win_text.visible, TextSlot::WinText, tr);
    let t6 = t5 + if_shown(s.win_text.visible, TextSlot::WinText);
    assert(t1 =~= if_shown(s.title_text.visible, TextSlot::Title));
    assert(t6 =~= drawn_texts_of(s));
}

/// The game opens on the menu with no points, reading PONG / Play / Quit and
/// 0 / 0, no line chosen or shown, no paddle shown, and the ball marked
/// shown; and with no key down.
pub proof fn lemma_opening(s: StateModel)
    ensures
        all_keys_up(no_keys()),
        ({
            let s = initial_state();
            &&& s.game_state == GameState::MainMenu
            &&& s.player1.score == 0 && s.player2.score == 0
            &&& !s.player1.visible && !s.player2.visible && s.ball.visible
            &&& s.title_text.text == "PONG"@ && s.play_button.text == "Play"@
                && s.quit_button.text == "Quit"@
            &&& s.player1_score.text == "0"@ && s.player2_score.text == "0"@
            &&& s.win_text.text.len() == 0
            &&& !s.title_text.focused && !s.play_button.focused && !s.quit_button.focused
            &&& !s.title_text.visible && !s.play_button.visible && !s.quit_button.visible
            &&& !s.player1_score.visible && !s.player2_score.visible && !s.win_text.visible
        }),
{
}

/// Redrawing the scores writes each player's points in decimal in that
/// player's score line and changes nothing else; entering the menu takes
/// every point away and chooses Play, and changes nothing else but the
/// choice.
pub proof fn lemma_scores_and_menu_entry(s: StateModel)
    ensures
        ({
            let t = scores_written(s);
            &&& t.player1_score.text == decimal(s.player1.score as nat)
            &&& t.player2_score.text == decimal(s.player2.score as nat)
            &&& t.player1_score.visible == s.player1_score.visible
            &&& t.player2_score.visible == s.player2_score.visible
            &&& t.player1 == s.player1 && t.player2 == s.player2 && t.ball == s.ball
            &&& menu_lines_kept(s, t) && t.win_text == s.win_text
            &&& t.game_state == s.game_state
        }),
        ({
            let t = menu_started(s);
            &&& t.player1.score == 0 && t.player2.score == 0
            &&& t.play_button.focused && !t.quit_button.focused
            &&& t.player1.visible == s.player1.visible && t.player2.visible == s.player2.visible
            &&& t.ball == s.ball && t.title_text == s.title_text
            &&& t.play_button.text == s.play_button.text && t.quit_button.text
                == s.quit_button.text
            &&& t.play_button.visible == s.play_button.visible && t.quit_button.visible
                == s.quit_button.visible
            &&& t.player1_score == s.player1_score && t.player2_score == s.player2_score
            &&& t.win_text == s.win_text && t.game_state == s.game_state
        }),
{
}

} // verus!
