use vstd::prelude::*;

verus! {

/// A key as the parser reads it. Keys that the parser gives no meaning to
/// arrive as `Other`.
#[derive(Clone, Copy, Debug, PartialEq, Eq, Structural)]
pub enum Key {
    Char(char),
    Enter,
    Esc,
    Backspace,
    Other,
}

/// An event from the terminal.
#[derive(Clone, Copy, Debug, PartialEq, Eq, Structural)]
pub enum Event {
    KeyEvent(Key),
    ResizeEvent(i32, i32),
    NoEvent,
}

/// A notification from the playback session.
#[derive(Clone, Copy, Debug, PartialEq, Eq, Structural)]
pub enum SessionEvent {
    /// The track that was playing has ended.
    EndOfTrack,
    /// Any other notification, which the core ignores.
    Other,
}

} // verus!
