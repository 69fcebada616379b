use vstd::prelude::*;

verus! {

/// The key codes that the applications distinguish.  Every code that none of
/// the key handlers recognises is collapsed into `Other`: such a key is a
/// no-op in both applications.
#[derive(Clone, Copy, Debug, PartialEq, Eq, Structural)]
pub enum KeyCode {
    /// A printable character, such as `q`, `-` or `+`.
    Char(char),
    /// The left arrow.
    Left,
    /// The right arrow.
    Right,
    /// The escape key.
    Esc,
    /// Any other key.
    Other,
}

/// Whether a key event marks the moment a key went down, was held down, or
/// came back up.  Only `Press` events drive the applications: acting on the
/// release as well would apply each physical keystroke twice.
#[derive(Clone, Copy, Debug, PartialEq, Eq, Structural)]
pub enum KeyEventKind {
    Press,
    Repeat,
    Release,
}

/// One keyboard event: a key code together with the press/repeat/release kind.
#[derive(Clone, Copy, Debug, PartialEq, Eq, Structural)]
pub struct KeyEvent {
    pub code: KeyCode,
    pub kind: KeyEventKind,
}

/// One input event.  Everything that is not a keyboard event (a resize, a
/// mouse movement) is collapsed into `Other` and ignored by the applications.
#[derive(Clone, Copy, Debug, PartialEq, Eq, Structural)]
pub enum Event {
    Key(KeyEvent),
    Other,
}

/// A press of the given key, as a full event.
pub open spec fn key_press(code: KeyCode) -> Event {
    Event::Key(KeyEvent { code, kind: KeyEventKind::Press })
}

} // verus!
