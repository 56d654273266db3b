//! The logical key vocabulary and the mapping from decoded terminal keys onto it.

use termion::event::Key as TermionKey;
use vstd::prelude::*;

verus! {

/// One logical keystroke.
#[derive(Debug, Clone, Copy, PartialEq, Eq, Hash, Structural)]
pub enum Key {
    Backspace,
    Left,
    Right,
    Up,
    Down,
    Home,
    End,
    PageUp,
    PageDown,
    Delete,
    Insert,
    /// A function key with its index.
    F(u8),
    /// A plain character.
    Char(char),
    /// A character pressed together with Alt.
    Alt(char),
    /// A character pressed together with Ctrl.
    Ctrl(char),
    Null,
    Esc,
    /// A sequence that the key source could not complete.
    __IsNotComplete,
}

/// The logical key that stands for a decoded terminal key: the variant of the
/// same name, carrying the same payload.
pub open spec fn logical_key(raw: TermionKey) -> Key {
    match raw {
        TermionKey::Backspace => Key::Backspace,
        TermionKey::Left => Key::Left,
        TermionKey::Right => Key::Right,
        TermionKey::Up => Key::Up,
        TermionKey::Down => Key::Down,
        TermionKey::Home => Key::Home,
        TermionKey::End => Key::End,
        TermionKey::PageUp => Key::PageUp,
        TermionKey::PageDown => Key::PageDown,
        TermionKey::Delete => Key::Delete,
        TermionKey::Insert => Key::Insert,
        TermionKey::F(n) => Key::F(n),
        TermionKey::Char(c) => Key::Char(c),
        TermionKey::Alt(c) => Key::Alt(c),
        TermionKey::Ctrl(c) => Key::Ctrl(c),
        TermionKey::Null => Key::Null,
        TermionKey::Esc => Key::Esc,
        TermionKey::__IsNotComplete => Key::__IsNotComplete,
    }
}

/// The decoded terminal key that a logical key stands for.
pub open spec fn decoded_key(key: Key) -> TermionKey {
    match key {
        Key::Backspace => TermionKey::Backspace,
        Key::Left => TermionKey::Left,
        Key::Right => TermionKey::Right,
        Key::Up => TermionKey::Up,
        Key::Down => TermionKey::Down,
        Key::Home => TermionKey::Home,
        Key::End => TermionKey::End,
        Key::PageUp => TermionKey::PageUp,
        Key::PageDown => TermionKey::PageDown,
        Key::Delete => TermionKey::Delete,
        Key::Insert => TermionKey::Insert,
        Key::F(n) => TermionKey::F(n),
        Key::Char(c) => TermionKey::Char(c),
        Key::Alt(c) => TermionKey::Alt(c),
        Key::Ctrl(c) => TermionKey::Ctrl(c),
        Key::Null => TermionKey::Null,
        Key::Esc => TermionKey::Esc,
        Key::__IsNotComplete => TermionKey::__IsNotComplete,
    }
}

/// Maps a decoded terminal key to the logical key of the same meaning. The
/// mapping is total: every decoded key has a logical key.
pub fn convert_key(raw: TermionKey) -> (key: Key)
    ensures
        key == logical_key(raw),
{
    match raw {
        TermionKey::Backspace => Key::Backspace,
        TermionKey::Left => Key::Left,
        TermionKey::Right => Key::Right,
        TermionKey::Up => Key::Up,
        TermionKey::Down => Key::Down,
        TermionKey::Home => Key::Home,
        TermionKey::End => Key::End,
        TermionKey::PageUp => Key::PageUp,
        TermionKey::PageDown => Key::PageDown,
        TermionKey::Delete => Key::Delete,
        TermionKey::Insert => Key::Insert,
        TermionKey::F(n) => Key::F(n),
        TermionKey::Char(c) => Key::Char(c),
        TermionKey::Alt(c) => Key::Alt(c),
        TermionKey::Ctrl(c) => Key::Ctrl(c),
        TermionKey::Null => Key::Null,
        TermionKey::Esc => Key::Esc,
        TermionKey::__IsNotComplete => Key::__IsNotComplete,
    }
}

/// Two decoded keys with the same logical key are the same decoded key: no
/// two keys are merged, and no payload is lost.
pub proof fn lemma_logical_key_is_injective(a: TermionKey, b: TermionKey)
    requires
        logical_key(a) == logical_key(b),
    ensures
        a == b,
{
    assert(decoded_key(logical_key(a)) == a);
    assert(decoded_key(logical_key(b)) == b);
}

/// The mapping and its inverse undo each other, so the two vocabularies
/// correspond one to one and every logical key is reached.
pub proof fn lemma_logical_key_is_one_to_one(raw: TermionKey, key: Key)
    ensures
        decoded_key(logical_key(raw)) == raw,
        logical_key(decoded_key(key)) == key,
{
}

} // verus!
