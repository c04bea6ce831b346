//! Keyboard events as the windowing layer delivers them.

use vstd::prelude::*;

verus! {

/// The key an event is about.
#[derive(Clone, Copy, Debug, PartialEq, Eq, Structural)]
pub enum Key {
    /// The escape key, which ends the program.
    Escape,
    /// Any other key, by its platform-independent key code.
    Other(i32),
}

/// What happened to the key.
#[derive(Clone, Copy, Debug, PartialEq, Eq, Structural)]
pub enum Action {
    Release,
    Press,
    Repeat,
}

/// One keyboard event: the key, its scan code, the action and the modifier
/// bitmask that was held.
#[derive(Clone, Copy, Debug, PartialEq, Eq, Structural)]
pub struct KeyEvent {
    pub key: Key,
    pub scancode: i32,
    pub action: Action,
    pub modifiers: u32,
}

impl KeyEvent {
    /// An event asks the program to close exactly when it is a press of the
    /// escape key; scan code and modifiers play no part.
    pub open spec fn requests_close(self) -> bool {
        self.key == Key::Escape && self.action == Action::Press
    }

    /// Whether this event asks the program to close.
    pub fn is_close_request(&self) -> (b: bool)
        ensures
            b == self.requests_close(),
    {
        self.key == Key::Escape && self.action == Action::Press
    }
}

} // verus!
