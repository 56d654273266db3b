//! The reader's state machine: how one decoded key, read under the mode that
//! is active at that moment, becomes an event or a longer line buffer.

use crate::key::{convert_key, logical_key, Key};
use termion::event::Key as TermionKey;
use vstd::prelude::*;

verus! {

/// The policy under which a keystroke is interpreted.
#[derive(Debug, Clone, Copy, PartialEq, Eq, Hash, Structural)]
pub enum Mode {
    /// Characters accumulate until a newline completes the line.
    Line,
    /// Every key is delivered on its own.
    Symbol,
}

/// An event delivered to the consumer.
#[derive(Debug, PartialEq, Eq, Hash)]
pub enum Input {
    /// A completed line, without its newline.
    Line(String),
    /// A single key.
    Symbol(Key),
}

/// What an event is, with the line as a sequence of characters.
pub ghost enum InputView {
    Line(Seq<char>),
    Symbol(Key),
}

impl View for Input {
    type V = InputView;

    open spec fn view(&self) -> InputView {
        match self {
            Input::Line(text) => InputView::Line(text@),
            Input::Symbol(key) => InputView::Symbol(*key),
        }
    }
}

/// One read from the key source: a decoded key, or the failure to decode one.
pub type Read = Result<TermionKey, std::io::Error>;

/// The line buffer after `read` was handled under `mode`.
///
/// Symbol mode has no buffer: a key handled there leaves none behind, so a
/// partial line does not survive a switch away from line mode. In line mode a
/// newline empties the buffer, any other character is appended, and
/// everything else leaves it as it was.
pub open spec fn buffer_after(buffer: Seq<char>, mode: Mode, read: Read) -> Seq<char> {
    match mode {
        Mode::Symbol => Seq::empty(),
        Mode::Line => match read {
            Ok(TermionKey::Char(c)) => if c == '\n' {
                Seq::empty()
            } else {
                buffer.push(c)
            },
            _ => buffer,
        },
    }
}

/// The event, if any, that handling `read` under `mode` emits.
///
/// In symbol mode every decoded key is emitted as its logical key and a
/// failed read is dropped. In line mode only a newline emits, and what it
/// emits is the buffer as it stood.
pub open spec fn emitted(buffer: Seq<char>, mode: Mode, read: Read) -> Option<InputView> {
    match mode {
        Mode::Symbol => match read {
            Ok(raw) => Some(InputView::Symbol(logical_key(raw))),
            Err(_) => None,
        },
        Mode::Line => match read {
            Ok(TermionKey::Char(c)) => if c == '\n' {
                Some(InputView::Line(buffer))
            } else {
                None
            },
            _ => None,
        },
    }
}

/// The view of an optional event.
pub open spec fn event_view(event: Option<Input>) -> Option<InputView> {
    match event {
        Some(input) => Some(input@),
        None => None,
    }
}

/// `String::push`: appends one character to the end of the string.
#[verifier::external_body]
fn push_char(text: &mut String, c: char)
    ensures
        final(text)@ == old(text)@.push(c),
{
    text.push(c);
}

/// The string made of the given characters, in order.
fn collect_line(chars: &Vec<char>) -> (line: String)
    ensures
        line@ == chars@,
{
    let mut line = String::new();
    let mut i: usize = 0;
    while i < chars.len()
        invariant
            i <= chars.len(),
            line@ == chars@.take(i as int),
        decreases chars.len() - i,
    {
        push_char(&mut line, chars[i]);
        assert(chars@.take(i as int).push(chars@[i as int]) == chars@.take(i + 1));
        i += 1;
    }
    assert(chars@.take(chars@.len() as int) == chars@);
    line
}

/// The state that the reader keeps between keys: the characters of the line
/// that is being typed.
pub struct Reader {
    line_buf: Vec<char>,
}

impl View for Reader {
    type V = Seq<char>;

    closed spec fn view(&self) -> Seq<char> {
        self.line_buf@
    }
}

impl Reader {
    /// A reader with an empty line buffer.
    pub fn new() -> (reader: Reader)
        ensures
            reader@ == Seq::<char>::empty(),
    {
        Reader { line_buf: Vec::new() }
    }

    /// The characters buffered so far, in the order they were typed.
    pub fn pending(&self) -> (chars: Vec<char>)
        ensures
            chars@ == self@,
    {
        self.line_buf.clone()
    }

    /// Handles one read from the key source under the mode that is active
    /// now, and returns the event to deliver, if there is one.
    pub fn feed(&mut self, mode: Mode, read: Read) -> (event: Option<Input>)
        ensures
            final(self)@ == buffer_after(old(self)@, mode, read),
            event_view(event) == emitted(old(self)@, mode, read),
    {
        match mode {
            Mode::Symbol => {
                self.line_buf.clear();
                match read {
                    Ok(raw) => Some(Input::Symbol(convert_key(raw))),
                    Err(_) => None,
                }
            },
            Mode::Line => match read {
                Ok(TermionKey::Char(c)) => {
                    if c == '\n' {
                        let line = collect_line(&self.line_buf);
                        self.line_buf.clear();
                        Some(Input::Line(line))
                    } else {
                        self.line_buf.push(c);
                        None
                    }
                },
                _ => None,
            },
        }
    }
}

} // verus!
