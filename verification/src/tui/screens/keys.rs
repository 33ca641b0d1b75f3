//! Key presses, as the screens see them.

use vstd::prelude::*;

verus! {

/// The key of a key press.
pub enum Key {
    Char(char),
    Enter,
    Esc,
    Tab,
    BackTab,
    Backspace,
    Up,
    Down,
    Left,
    Right,
    /// Any other key (function keys, Home, Delete, ...).
    Other,
}

/// A key press: the key and whether Control was held.
pub struct KeyPress {
    pub code: Key,
    pub ctrl: bool,
}

/// The key moves a list's cursor up (`Up` or `k`).
pub open spec fn is_up(k: Key) -> bool {
    k matches Key::Up || k == Key::Char('k')
}

/// The key moves a list's cursor down (`Down` or `j`).
pub open spec fn is_down(k: Key) -> bool {
    k matches Key::Down || k == Key::Char('j')
}

/// Whether `k` is `Up` or `k`.
pub fn key_is_up(k: &Key) -> (r: bool)
    ensures
        r == is_up(*k),
{
    match k {
        Key::Up => true,
        Key::Char(c) => *c == 'k',
        _ => false,
    }
}

/// Whether `k` is `Down` or `j`.
pub fn key_is_down(k: &Key) -> (r: bool)
    ensures
        r == is_down(*k),
{
    match k {
        Key::Down => true,
        Key::Char(c) => *c == 'j',
        _ => false,
    }
}

} // verus!
