use vstd::prelude::*;

verus! {

/// A key as the state machine reads it: the key code, without modifiers.
#[derive(Debug, Clone, Copy, PartialEq, Eq, Structural)]
pub enum Key {
    Char(char),
    Enter,
    Backspace,
    Left,
    Right,
    Up,
    Down,
    Esc,
    /// Any other key; no transition reads it.
    Other,
}

/// How a dispatched request ended.
#[derive(Debug, Clone, Copy, PartialEq, Eq, Structural)]
pub enum Outcome {
    /// The server answered with this status code.
    Status(u16),
    /// The transport failed before a status was received.
    Failed,
}

/// One item of the single ordered stream the event loop consumes.
#[derive(Debug, Clone, Copy, PartialEq, Eq, Structural)]
pub enum Event {
    /// Reading or decoding terminal input failed.
    Error,
    /// The periodic timer elapsed.
    Tick,
    /// A key was pressed.
    Key(Key),
    /// The dispatched request finished.
    Dispatched(Outcome),
}

/// What the terminal produced, as far as the event source reads it.
#[derive(Debug, Clone, Copy, PartialEq, Eq, Structural)]
pub enum TerminalInput {
    /// A key transition: a press, or a release or repeat.
    Key { key: Key, pressed: bool },
    /// Focus, mouse, paste or resize input.
    Other,
    /// The input stream could not be read or decoded.
    Failed,
}

impl Event {
    /// The event a terminal input becomes: one per key press (releases and
    /// repeats are dropped), an error event for a failed read, and nothing
    /// for any other input.
    pub fn from_terminal(input: TerminalInput) -> (r: Option<Event>)
        ensures
            r == match input {
                TerminalInput::Key { key, pressed } => if pressed {
                    Some(Event::Key(key))
                } else {
                    None
                },
                TerminalInput::Other => None,
                TerminalInput::Failed => Some(Event::Error),
            },
    {
        match input {
            TerminalInput::Key { key, pressed } => {
                if pressed {
                    Some(Event::Key(key))
                } else {
                    None
                }
            },
            TerminalInput::Other => None,
            TerminalInput::Failed => Some(Event::Error),
        }
    }
}

} // verus!
