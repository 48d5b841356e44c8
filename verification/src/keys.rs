//! The keyboard events that the dashboard's panes react to.

use vstd::prelude::*;

verus! {

/// The keys that mean something to a pane.
#[derive(Debug, Clone, Copy, PartialEq, Eq, Structural)]
pub enum Key {
    Escape,
    Enter,
    Tab,
    Other,
}

/// A keyboard event.
#[derive(Debug, Clone, Copy, PartialEq, Eq, Structural)]
pub enum Event {
    KeyPressed { key: Key, shift: bool },
    Other,
}

impl Event {
    pub open spec fn is_escape(self) -> bool {
        self matches Event::KeyPressed { key, .. } && key == Key::Escape
    }

    /// Tells whether the event is the Escape key going down.
    pub fn escape(self) -> (b: bool)
        ensures
            b == self.is_escape(),
    {
        match self {
            Event::KeyPressed { key: Key::Escape, .. } => true,
            _ => false,
        }
    }
}

/// What a pane wants to be told of while it is open.
#[derive(Debug, Clone, Copy, PartialEq, Eq, Structural)]
pub struct Listening {
    /// Keyboard events.
    pub keys: bool,
    /// A tick for every frame.
    pub frames: bool,
}

} // verus!
