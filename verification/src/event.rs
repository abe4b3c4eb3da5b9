//! Input events as the dispatcher sees them.

use vstd::prelude::*;

verus! {

/// The key of a keyboard event.
#[derive(Clone, Copy, PartialEq, Eq, Structural, Debug)]
pub enum KeyCode {
    Up,
    Down,
    Enter,
    Char(char),
    Other,
}

/// Whether a key went down, is held, or came up.
#[derive(Clone, Copy, PartialEq, Eq, Structural, Debug)]
pub enum KeyEventKind {
    Press,
    Repeat,
    Release,
}

/// One keyboard event.
#[derive(Clone, Copy, PartialEq, Eq, Structural, Debug)]
pub struct KeyEvent {
    pub code: KeyCode,
    pub kind: KeyEventKind,
}

/// One input event. Everything that is not a keyboard event is `Other`.
#[derive(Clone, Copy, PartialEq, Eq, Structural, Debug)]
pub enum Event {
    Key(KeyEvent),
    Other,
}

impl Event {
    /// The key that this event presses, if it is a key press.
    pub open spec fn pressed(self) -> Option<KeyCode> {
        match self {
            Event::Key(key) => if key.kind == KeyEventKind::Press {
                Some(key.code)
            } else {
                None
            },
            Event::Other => None,
        }
    }

    /// Whether this event is a press of the quit key, `q`.
    pub open spec fn quits(self) -> bool {
        self.pressed() == Some(KeyCode::Char('q'))
    }

    /// A press of `code`.
    pub fn press(code: KeyCode) -> (event: Event)
        ensures
            event == Event::Key(KeyEvent { code, kind: KeyEventKind::Press }),
            event.pressed() == Some(code),
    {
        Event::Key(KeyEvent { code, kind: KeyEventKind::Press })
    }

    /// The key that this event presses; `None` for releases, repeats and
    /// events that are no keyboard events.
    pub fn pressed_key(&self) -> (key: Option<KeyCode>)
        ensures
            key == self.pressed(),
    {
        match self {
            Event::Key(key) => {
                if key.kind == KeyEventKind::Press {
                    Some(key.code)
                } else {
                    None
                }
            },
            Event::Other => None,
        }
    }

    /// Whether this event is a press of the quit key.
    pub fn is_quit(&self) -> (quit: bool)
        ensures
            quit == self.quits(),
    {
        match self.pressed_key() {
            Some(KeyCode::Char(c)) => c == 'q',
            _ => false,
        }
    }
}

} // verus!
