//! Logical keys: the input alphabet of the selection state machine.

use vstd::prelude::*;

verus! {

/// A key press, reduced to the keys that the task manager distinguishes.
#[derive(Clone, Copy, Debug, PartialEq, Eq, Structural, Hash)]
pub enum Key {
    /// A character key.
    Char(char),
    Enter,
    Esc,
    Up,
    Down,
}

/// The text under which the terminal library shows a key: what formatting
/// the corresponding `crossterm::event::KeyCode` with `{:?}` writes.
pub uninterp spec fn key_caption(key: Key) -> Seq<char>;

/// Formats the `crossterm::event::KeyCode` that stands for `key` with the
/// `Debug` implementation that crossterm derives for it.
///
/// Trusted, not proved: the text is determined by the key. Nothing is
/// claimed about what the text holds.
#[verifier::external_body]
pub(crate) fn caption_of(key: Key) -> (caption: String)
    ensures
        caption@ == key_caption(key),
{
    let code = match key {
        Key::Char(c) => crossterm::event::KeyCode::Char(c),
        Key::Enter => crossterm::event::KeyCode::Enter,
        Key::Esc => crossterm::event::KeyCode::Esc,
        Key::Up => crossterm::event::KeyCode::Up,
        Key::Down => crossterm::event::KeyCode::Down,
    };
    format!("{:?}", code)
}

} // verus!
