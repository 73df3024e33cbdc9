//! Keyboard input as plain values.
//!
//! The terminal layer translates its own key events into this enum before
//! handing them to the controllers; only key presses are delivered.

use vstd::prelude::*;

verus! {

/// One key press, reduced to what the controllers distinguish.
#[derive(Debug, Clone, Copy, PartialEq, Eq, Structural)]
pub enum Key {
    /// A printable character, including letters used as hotkeys.
    Char(char),
    Enter,
    Esc,
    Tab,
    Backspace,
    Left,
    Right,
    Up,
    Down,
    Home,
    End,
    /// Any key the controllers ignore.
    Other,
}

/// Back out of the current context: `q` or `Esc`.
pub open spec fn is_quit_key(k: Key) -> bool {
    k == Key::Esc || k == Key::Char('q')
}

/// Move down: `j` or the down arrow.
pub open spec fn is_down_key(k: Key) -> bool {
    k == Key::Char('j') || k == Key::Down
}

/// Move up: `k` or the up arrow.
pub open spec fn is_up_key(k: Key) -> bool {
    k == Key::Char('k') || k == Key::Up
}

/// Deselect: `h` or the left arrow.
pub open spec fn is_left_key(k: Key) -> bool {
    k == Key::Char('h') || k == Key::Left
}

/// Open details: `l` or the right arrow.
pub open spec fn is_right_key(k: Key) -> bool {
    k == Key::Char('l') || k == Key::Right
}

/// Jump to the first item: `g` or Home.
pub open spec fn is_first_key(k: Key) -> bool {
    k == Key::Char('g') || k == Key::Home
}

/// Jump to the last item: `G` or End.
pub open spec fn is_last_key(k: Key) -> bool {
    k == Key::Char('G') || k == Key::End
}

} // verus!
