use vstd::prelude::*;

verus! {

/// A key press, independent of the terminal library that reported it.
#[derive(Clone, Copy, PartialEq, Eq, Debug, Structural)]
pub enum Key {
    Enter,
    Esc,
    Char(char),
    Backspace,
    Up,
    Down,
    Left,
    Right,
    Tab,
    Unkown,
}

/// The kind of a mouse event.
#[derive(Clone, Copy, PartialEq, Eq, Debug, Structural)]
pub enum MouseKind {
    LeftClick,
    MiddleClick,
    ScrollUp,
    ScrollDown,
    Drag,
    Unkown,
}

/// A mouse event at a terminal cell.
#[derive(Clone, Copy, PartialEq, Eq, Debug, Structural)]
pub struct Mouse {
    pub kind: MouseKind,
    pub column: u16,
    pub row: u16,
}

} // verus!
