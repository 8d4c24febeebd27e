use vstd::prelude::*;

verus! {

/// What the game tells its surroundings happened this frame, for sound.
#[derive(Debug, Clone, Copy, PartialEq, Eq, Structural)]
pub enum Event {
    /// A menu entry was chosen, or escape was acted on.
    ButtonPressed,
    /// The chosen menu entry moved.
    FocusChanged,
    /// A point was scored and the game goes on.
    Score,
    /// The ball bounced off a paddle or the top or bottom of the window.
    BallBounce,
}

/// The keys the game reads, by physical position.
#[derive(Debug, Clone, Copy, PartialEq, Eq, Structural)]
pub enum Key {
    /// W: the left paddle up.
    W,
    /// S: the left paddle down.
    S,
    /// Arrow up: the right paddle up.
    Up,
    /// Arrow down: the right paddle down.
    Down,
    Enter,
    Escape,
}

/// The keyboard as the game reads it: one flag per key, true while the key is
/// held, except escape, which is true from a fresh press until a screen acts
/// on it.
#[derive(Debug, Clone, Copy, PartialEq, Eq, Structural)]
pub struct Input {
    pub esc_pressed: bool,
    pub enter_pressed: bool,
    pub p1_up_pressed: bool,
    pub p1_down_pressed: bool,
    pub p2_up_pressed: bool,
    pub p2_down_pressed: bool,
}

/// No key down.
pub open spec fn no_keys() -> Input {
    Input {
        esc_pressed: false,
        enter_pressed: false,
        p1_up_pressed: false,
        p1_down_pressed: false,
        p2_up_pressed: false,
        p2_down_pressed: false,
    }
}

/// Up, for moving through a menu: either player's up key.
pub open spec fn ui_up(i: Input) -> bool {
    i.p1_up_pressed || i.p2_up_pressed
}

/// Down, for moving through a menu: either player's down key.
pub open spec fn ui_down(i: Input) -> bool {
    i.p1_down_pressed || i.p2_down_pressed
}

/// The flags after `key` went down (`pressed`) or came up, `repeat` marking a
/// press that the keyboard repeats while the key is held. Held keys follow
/// the key; escape is set only by a fresh press and never cleared here.
pub open spec fn after_key(i: Input, key: Key, pressed: bool, repeat: bool) -> Input {
    match key {
        Key::W => Input { p1_up_pressed: pressed, ..i },
        Key::S => Input { p1_down_pressed: pressed, ..i },
        Key::Up => Input { p2_up_pressed: pressed, ..i },
        Key::Down => Input { p2_down_pressed: pressed, ..i },
        Key::Enter => Input { enter_pressed: pressed, ..i },
        Key::Escape => if pressed && !repeat {
            Input { esc_pressed: true, ..i }
        } else {
            i
        },
    }
}

impl Input {
    /// No key down.
    pub fn new() -> (i: Input)
        ensures
            i == no_keys(),
    {
        Input {
            esc_pressed: false,
            enter_pressed: false,
            p1_up_pressed: false,
            p1_down_pressed: false,
            p2_up_pressed: false,
            p2_down_pressed: false,
        }
    }

    /// Forgets every key, so that nothing held carries into the next screen.
    pub fn clear(&mut self)
        ensures
            *final(self) == no_keys(),
    {
        *self = Input::new();
    }

    pub fn ui_up_pressed(&self) -> (b: bool)
        ensures
            b == ui_up(*self),
    {
        self.p1_up_pressed || self.p2_up_pressed
    }

    pub fn ui_down_pressed(&self) -> (b: bool)
        ensures
            b == ui_down(*self),
    {
        self.p1_down_pressed || self.p2_down_pressed
    }

    /// Records that `key` went down or came up.
    pub fn process_keyboard(&mut self, key: Key, pressed: bool, repeat: bool)
        ensures
            *final(self) == after_key(*old(self), key, pressed, repeat),
    {
        match key {
            Key::W => self.p1_up_pressed = pressed,
            Key::S => self.p1_down_pressed = pressed,
            Key::Up => self.p2_up_pressed = pressed,
            Key::Down => self.p2_down_pressed = pressed,
            Key::Enter => self.enter_pressed = pressed,
            Key::Escape => {
                if pressed && !repeat {
                    self.esc_pressed = true;
                }
            },
        }
    }
}

} // verus!
