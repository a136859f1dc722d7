//! The vocabulary of keyboard input: one value per key chord.

use vstd::prelude::*;

verus! {

/// A key chord as the application understands it: a named key, a plain
/// character, or a character pressed together with a modifier.
#[derive(Debug, Clone, Copy, PartialEq, Eq, Hash, Structural)]
pub enum Key {
    Enter,
    Tab,
    BackTab,
    Backspace,
    Esc,
    Space,
    Left,
    Right,
    Up,
    Down,
    Ins,
    Delete,
    Home,
    End,
    PageUp,
    PageDown,
    /// A function key, `F(1)` for F1.
    F(u8),
    Char(char),
    Ctrl(char),
    Alt(char),
    Unknown,
}

} // verus!
