//! The rules of a two-player Pong game: the flow between its screens, the
//! menu, scoring, what is shown on each screen, and the keyboard flags the
//! players drive it with. Geometry (positions, sizes, velocities) is kept by
//! the program that draws the game; it hands this library the facts it reads
//! from that geometry, such as which edge the ball left through.
pub mod behaviour;
pub mod clock;
pub mod game;
pub mod input;
pub mod laws;
pub mod state;
pub mod system;
pub mod text;

pub use game::{FrameAction, PongGame, Setup};
pub use input::{Event, Input, Key};
pub use state::{Ball, GameState, Piece, Player, PongText, State, TextSlot};
pub use system::{
    BallSystem, GameOverSystem, MenuSystem, PauseSystem, PlaySystem, ServingSystem, Side,
    VisibilitySystem,
};
pub use text::decimal_text;
