//! The keys the front-end reports, reduced to what the logic reads.
//! Modifier handling stays with the caller: where a binding depends on
//! Control being held, the handler takes that as its own argument.

use vstd::prelude::*;

verus! {

/// One key press.
#[derive(Debug, Clone, Copy, PartialEq, Eq, Structural)]
pub enum Key {
    Char(char),
    Esc,
    Enter,
    Backspace,
    Tab,
    BackTab,
    Left,
    Right,
    Up,
    Down,
    Delete,
    /// Any key the logic does not bind.
    Other,
}

} // verus!
