//! The abstract keyboard alphabet the core consumes; decoding raw terminal
//! bytes into it is the terminal layer's business.
use vstd::prelude::*;

verus! {

/// One keyboard event.
#[derive(Debug, Copy, Clone, Eq, PartialEq, Structural)]
pub enum Key {
    Enter,
    Tab,
    BackSpace,
    Esc,
    Up,
    Down,
    Left,
    Right,
    Char(char),
    Ctrl(char),
    Alt(char),
    Unknown,
}

} // verus!
