//! The input model: what a key press holds, as plain values, and the pure
//! predicates that map keys to intents.

use vstd::prelude::*;

verus! {

/// The key that was pressed.
#[derive(Clone, Copy, Debug, PartialEq, Eq, Structural)]
pub enum KeyCode {
    Up,
    Down,
    Left,
    Right,
    Enter,
    Esc,
    Char(char),
    Other,
}

/// One key press: the key and whether the control modifier (alone) was
/// held.
#[derive(Clone, Copy, Debug, PartialEq, Eq, Structural)]
pub struct KeyPress {
    pub code: KeyCode,
    pub ctrl: bool,
}

/// Whether `key` means "move up".
pub open spec fn spec_is_up(key: KeyPress) -> bool {
    key.code == KeyCode::Up || key.code == KeyCode::Char('k')
}

/// Whether `key` means "move down".
pub open spec fn spec_is_down(key: KeyPress) -> bool {
    key.code == KeyCode::Down || key.code == KeyCode::Char('j')
}

/// Whether `key` means "move left".
pub open spec fn spec_is_left(key: KeyPress) -> bool {
    key.code == KeyCode::Left || key.code == KeyCode::Char('h')
}

/// Whether `key` means "move right".
pub open spec fn spec_is_right(key: KeyPress) -> bool {
    key.code == KeyCode::Right || key.code == KeyCode::Char('l')
}

/// Whether `key` means "confirm the selection".
pub open spec fn spec_is_select(key: KeyPress) -> bool {
    key.code == KeyCode::Enter
}

/// Whether `key` means "leave".
pub open spec fn spec_is_exit(key: KeyPress) -> bool {
    key.code == KeyCode::Esc || key.code == KeyCode::Char('q') || key.code == KeyCode::Char('Q')
}

/// Up arrow or `k`.
pub fn is_up(key: KeyPress) -> (r: bool)
    ensures
        r == spec_is_up(key),
{
    matches!(key.code, KeyCode::Up | KeyCode::Char('k'))
}

/// Down arrow or `j`.
pub fn is_down(key: KeyPress) -> (r: bool)
    ensures
        r == spec_is_down(key),
{
    matches!(key.code, KeyCode::Down | KeyCode::Char('j'))
}

/// Left arrow or `h`.
pub fn is_left(key: KeyPress) -> (r: bool)
    ensures
        r == spec_is_left(key),
{
    matches!(key.code, KeyCode::Left | KeyCode::Char('h'))
}

/// Right arrow or `l`.
pub fn is_right(key: KeyPress) -> (r: bool)
    ensures
        r == spec_is_right(key),
{
    matches!(key.code, KeyCode::Right | KeyCode::Char('l'))
}

/// Enter.
pub fn is_select(key: KeyPress) -> (r: bool)
    ensures
        r == spec_is_select(key),
{
    matches!(key.code, KeyCode::Enter)
}

/// Escape, `q` or `Q`.
pub fn is_exit(key: KeyPress) -> (r: bool)
    ensures
        r == spec_is_exit(key),
{
    matches!(key.code, KeyCode::Esc | KeyCode::Char('q' | 'Q'))
}

} // verus!
