# pong

A two-player Pong game whose rules are verified with Verus.

- `src/` is the verified library: the frame of a whole game, which screen
  runs and which screen is entered (`game.rs`), the screens of the game and
  the moves between them (`system.rs`), the state the rules read and write and what is
  drawn of it (`state.rs`), the keyboard flags (`input.rs`), the decimal text
  of a score (`text.rs`), the clock the serve and game-over waits read
  (`clock.rs`), and the laws the rules keep (`laws.rs`).
- `app/` is the program around it: the window, keyboard and drawing through
  `blitzkit`, and the floating-point geometry of paddles and ball (layout,
  movement, bounces), which the verified rules cannot hold. It reports to the
  rules which edge, if any, the ball has left by.
