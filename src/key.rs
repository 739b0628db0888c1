//! Key events as the editor reads them.

use vstd::prelude::*;

verus! {

/// One key event: a printable character, a named key or a control chord.
#[derive(Clone, Copy, Debug, PartialEq, Eq, Structural)]
pub enum Key {
    Char(char),
    Ctrl(char),
    Up,
    Down,
    Left,
    Right,
    Enter,
    Tab,
    Esc,
    Backspace,
    /// Any key the editor has no binding for.
    Other,
}

} // verus!
