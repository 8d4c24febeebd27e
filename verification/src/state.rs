use vstd::prelude::*;
use vstd::string::*;

verus! {

/// The screen the game is on.
#[derive(Debug, Clone, Copy, PartialEq, Eq, Structural)]
pub enum GameState {
    MainMenu,
    Serving,
    Playing,
    Paused,
    GameOver,
    Quitting,
}

/// What the rules know of a paddle: its player's points and whether it is drawn.
#[derive(Debug, Clone, Copy, PartialEq, Eq, Structural)]
pub struct Player {
    pub score: u32,
    pub visible: bool,
}

impl Player {
    /// A paddle with no points, hidden until a game starts.
    pub fn new() -> (p: Player)
        ensures
            p.score == 0,
            !p.visible,
    {
        Player { score: 0, visible: false }
    }
}

/// What the rules know of the ball: whether it is drawn.
#[derive(Debug, Clone, Copy, PartialEq, Eq, Structural)]
pub struct Ball {
    pub visible: bool,
}

impl Ball {
    /// A ball, shown.
    pub fn new() -> (b: Ball)
        ensures
            b.visible,
    {
        Ball { visible: true }
    }
}

/// A line of text on screen: its words, whether it is the menu entry the
/// player has chosen, and whether it is drawn.
pub struct PongText {
    pub text: String,
    pub focused: bool,
    pub visible: bool,
}

/// A line of text as the contracts see it.
pub struct TextModel {
    pub text: Seq<char>,
    pub focused: bool,
    pub visible: bool,
}

impl View for PongText {
    type V = TextModel;

    open spec fn view(&self) -> TextModel {
        TextModel { text: self.text@, focused: self.focused, visible: self.visible }
    }
}

impl PongText {
    /// A hidden, unfocused line reading `text`.
    pub fn new(text: &str) -> (t: PongText)
        ensures
            t@ == (TextModel { text: text@, focused: false, visible: false }),
    {
        PongText { text: String::from_str(text), focused: false, visible: false }
    }

    pub fn focused(&self) -> (f: bool)
        ensures
            f == self.focused,
    {
        self.focused
    }

    pub fn set_focus(&mut self, focused: bool)
        ensures
            final(self)@ == (TextModel { focused, ..old(self)@ }),
    {
        self.focused = focused;
    }

    /// Replaces the words, keeping focus and visibility.
    pub fn set_text(&mut self, text: String)
        ensures
            final(self)@ == (TextModel { text: text@, ..old(self)@ }),
    {
        self.text = text;
    }
}


/// Everything the rules of the game read and write.
pub struct State {
    pub game_state: GameState,
    pub player1: Player,
    pub player2: Player,
    pub ball: Ball,
    pub title_text: PongText,
    pub play_button: PongText,
    pub quit_button: PongText,
    pub player1_score: PongText,
    pub player2_score: PongText,
    pub win_text: PongText,
}

/// The state as the contracts see it.
pub struct StateModel {
    pub game_state: GameState,
    pub player1: Player,
    pub player2: Player,
    pub ball: Ball,
    pub title_text: TextModel,
    pub play_button: TextModel,
    pub quit_button: TextModel,
    pub player1_score: TextModel,
    pub player2_score: TextModel,
    pub win_text: TextModel,
}

impl View for State {
    type V = StateModel;

    open spec fn view(&self) -> StateModel {
        StateModel {
            game_state: self.game_state,
            player1: self.player1,
            player2: self.player2,
            ball: self.ball,
            title_text: self.title_text@,
            play_button: self.play_button@,
            quit_button: self.quit_button@,
            player1_score: self.player1_score@,
            player2_score: self.player2_score@,
            win_text: self.win_text@,
        }
    }
}

/// A line that nobody has chosen and that is not drawn.
pub open spec fn hidden_line(text: Seq<char>) -> TextModel {
    TextModel { text, focused: false, visible: false }
}

/// The state the game opens in: the main menu, no points, the menu reading
/// PONG / Play / Quit and both scores reading 0, nothing chosen, and of all
/// the pieces only the ball marked as shown until the screen's own
/// visibility is applied.
pub open spec fn initial_state() -> StateModel {
    StateModel {
        game_state: GameState::MainMenu,
        player1: Player { score: 0, visible: false },
        player2: Player { score: 0, visible: false },
        ball: Ball { visible: true },
        title_text: hidden_line("PONG"@),
        play_button: hidden_line("Play"@),
        quit_button: hidden_line("Quit"@),
        player1_score: hidden_line("0"@),
        player2_score: hidden_line("0"@),
        win_text: hidden_line(Seq::empty()),
    }
}

/// Losing window focus: a game in play pauses; anywhere else nothing changes.
pub open spec fn paused(s: StateModel) -> StateModel {
    if s.game_state == GameState::Playing {
        StateModel { game_state: GameState::Paused, ..s }
    } else {
        s
    }
}

/// The shapes that can be drawn.
#[derive(Debug, Clone, Copy, PartialEq, Eq, Structural)]
pub enum Piece {
    Player1,
    Player2,
    Ball,
}

/// The lines of text that can be drawn.
#[derive(Debug, Clone, Copy, PartialEq, Eq, Structural)]
pub enum TextSlot {
    Title,
    PlayButton,
    QuitButton,
    Player1Score,
    Player2Score,
    WinText,
}

/// `x` as a one-element sequence when `shown`, else nothing.
pub open spec fn if_shown<T>(shown: bool, x: T) -> Seq<T> {
    if shown {
        seq![x]
    } else {
        Seq::empty()
    }
}

/// The visible shapes, in drawing order: left paddle, right paddle, ball.
pub open spec fn drawn_pieces_of(s: StateModel) -> Seq<Piece> {
    if_shown(s.player1.visible, Piece::Player1) + if_shown(s.player2.visible, Piece::Player2)
        + if_shown(s.ball.visible, Piece::Ball)
}

/// The visible lines, in drawing order: title, play, quit, left score,
/// right score, win text.
pub open spec fn drawn_texts_of(s: StateModel) -> Seq<TextSlot> {
    if_shown(s.title_text.visible, TextSlot::Title) + if_shown(
        s.play_button.visible,
        TextSlot::PlayButton,
    ) + if_shown(s.quit_button.visible, TextSlot::QuitButton) + if_shown(
        s.player1_score.visible,
        TextSlot::Player1Score,
    ) + if_shown(s.player2_score.visible, TextSlot::Player2Score) + if_shown(
        s.win_text.visible,
        TextSlot::WinText,
    )
}

impl State {
    /// The game as it opens: on the main menu, before any screen has shown or
    /// hidden anything.
    pub fn new() -> (s: State)
        ensures
            s@ == initial_state(),
    {
        State {
            game_state: GameState::MainMenu,
            player1: Player::new(),
            player2: Player::new(),
            ball: Ball::new(),
            title_text: PongText::new("PONG"),
            play_button: PongText::new("Play"),
            quit_button: PongText::new("Quit"),
            player1_score: PongText::new("0"),
            player2_score: PongText::new("0"),
            win_text: PongText { text: String::new(), focused: false, visible: false },
        }
    }

    /// Pauses a game in play; on any other screen does nothing.
    pub fn pause_game(&mut self)
        ensures
            final(self)@ == paused(old(self)@),
    {
        if self.game_state == GameState::Playing {
            self.game_state = GameState::Paused;
        }
    }

    /// The shapes to draw this frame, in order.
    pub fn drawn_pieces(&self) -> (pieces: Vec<Piece>)
        ensures
            pieces@ == drawn_pieces_of(self@),
    {
        let mut pieces: Vec<Piece> = Vec::new();
        if self.player1.visible {
            pieces.push(Piece::Player1);
        }
        if self.player2.visible {
            pieces.push(Piece::Player2);
        }
        if self.ball.visible {
            pieces.push(Piece::Ball);
        }
        pieces
    }

    /// The line of text in `slot`.
    pub fn text(&self, slot: TextSlot) -> (t: &PongText)
        ensures
            *t == match slot {
                TextSlot::Title => self.title_text,
                TextSlot::PlayButton => self.play_button,
                TextSlot::QuitButton => self.quit_button,
                TextSlot::Player1Score => self.player1_score,
                TextSlot::Player2Score => self.player2_score,
                TextSlot::WinText => self.win_text,
            },
    {
        match slot {
            TextSlot::Title => &self.title_text,
            TextSlot::PlayButton => &self.play_button,
            TextSlot::QuitButton => &self.quit_button,
            TextSlot::Player1Score => &self.player1_score,
            TextSlot::Player2Score => &self.player2_score,
            TextSlot::WinText => &self.win_text,
        }
    }

    /// The lines of text to draw this frame, in order.
    pub fn drawn_texts(&self) -> (slots: Vec<TextSlot>)
        ensures
            slots@ == drawn_texts_of(self@),
    {
        let mut slots: Vec<TextSlot> = Vec::new();
        if self.title_text.visible {
            slots.push(TextSlot::Title);
        }
        if self.play_button.visible {
            slots.push(TextSlot::PlayButton);
        }
        if self.quit_button.visible {
            slots.push(TextSlot::QuitButton);
        }
        if self.player1_score.visible {
            slots.push(TextSlot::Player1Score);
        }
        if self.player2_score.visible {
            slots.push(TextSlot::Player2Score);
        }
        if self.win_text.visible {
            slots.push(TextSlot::WinText);
        }
        slots
    }
}

} // verus!
