use arl::{Input, Key, Mode, Reader};
use std::io::{Error, ErrorKind};
use termion::event::Key as TermionKey;

fn failed_read() -> Result<TermionKey, Error> {
    Err(Error::new(ErrorKind::Other, "could not decode"))
}

fn type_in(reader: &mut Reader, mode: Mode, text: &str) -> Vec<Input> {
    let mut events = Vec::new();
    for c in text.chars() {
        if let Some(event) = reader.feed(mode, Ok(TermionKey::Char(c))) {
            events.push(event);
        }
    }
    events
}

#[test]
fn new_reader_has_empty_buffer() {
    assert_eq!(Reader::new().pending(), Vec::<char>::new());
}

#[test]
fn symbol_mode_emits_each_decoded_key_in_order() {
    let mut reader = Reader::new();
    let reads = vec![
        Ok(TermionKey::Char('x')),
        failed_read(),
        Ok(TermionKey::Up),
        Ok(TermionKey::F(5)),
        failed_read(),
        Ok(TermionKey::Ctrl('c')),
        Ok(TermionKey::__IsNotComplete),
    ];
    let mut events = Vec::new();
    for read in reads {
        if let Some(event) = reader.feed(Mode::Symbol, read) {
            events.push(event);
        }
    }
    assert_eq!(
        events,
        vec![
            Input::Symbol(Key::Char('x')),
            Input::Symbol(Key::Up),
            Input::Symbol(Key::F(5)),
            Input::Symbol(Key::Ctrl('c')),
            Input::Symbol(Key::__IsNotComplete),
        ]
    );
}

#[test]
fn symbol_mode_emits_newline_as_a_key() {
    let mut reader = Reader::new();
    assert_eq!(
        reader.feed(Mode::Symbol, Ok(TermionKey::Char('\n'))),
        Some(Input::Symbol(Key::Char('\n')))
    );
}

#[test]
fn symbol_mode_drops_failed_read() {
    let mut reader = Reader::new();
    assert_eq!(reader.feed(Mode::Symbol, failed_read()), None);
    assert_eq!(reader.pending(), Vec::<char>::new());
}

#[test]
fn line_mode_buffers_without_emitting() {
    let mut reader = Reader::new();
    let events = type_in(&mut reader, Mode::Line, "hello world");
    assert_eq!(events, Vec::<Input>::new());
    assert_eq!(reader.pending(), "hello world".chars().collect::<Vec<char>>());
}

#[test]
fn line_mode_emits_line_on_newline() {
    let mut reader = Reader::new();
    let events = type_in(&mut reader, Mode::Line, "abc\n");
    assert_eq!(events, vec![Input::Line("abc".to_string())]);
    assert_eq!(reader.pending(), Vec::<char>::new());
}

#[test]
fn line_mode_emits_empty_line_on_lone_newline() {
    let mut reader = Reader::new();
    let events = type_in(&mut reader, Mode::Line, "\n");
    assert_eq!(events, vec![Input::Line(String::new())]);
    assert_eq!(reader.pending(), Vec::<char>::new());
}

#[test]
fn line_mode_emits_one_line_per_newline() {
    let mut reader = Reader::new();
    let events = type_in(&mut reader, Mode::Line, "one\ntwo\nthr");
    assert_eq!(
        events,
        vec![Input::Line("one".to_string()), Input::Line("two".to_string())]
    );
    assert_eq!(reader.pending(), vec!['t', 'h', 'r']);
}

#[test]
fn line_mode_keeps_non_ascii_characters() {
    let mut reader = Reader::new();
    let events = type_in(&mut reader, Mode::Line, "héllo ✓\n");
    assert_eq!(events, vec![Input::Line("héllo ✓".to_string())]);
}

#[test]
fn line_mode_drops_keys_that_are_not_characters() {
    let mut reader = Reader::new();
    type_in(&mut reader, Mode::Line, "ab");
    for raw in [
        TermionKey::Backspace,
        TermionKey::Left,
        TermionKey::F(1),
        TermionKey::Alt('x'),
        TermionKey::Ctrl('\n'),
        TermionKey::Esc,
        TermionKey::Null,
        TermionKey::__IsNotComplete,
    ] {
        assert_eq!(reader.feed(Mode::Line, Ok(raw)), None);
        assert_eq!(reader.pending(), vec!['a', 'b']);
    }
}

#[test]
fn line_mode_drops_failed_read_and_keeps_buffer() {
    let mut reader = Reader::new();
    type_in(&mut reader, Mode::Line, "ab");
    assert_eq!(reader.feed(Mode::Line, failed_read()), None);
    assert_eq!(reader.pending(), vec!['a', 'b']);
    let events = type_in(&mut reader, Mode::Line, "c\n");
    assert_eq!(events, vec![Input::Line("abc".to_string())]);
}

#[test]
fn switch_to_symbol_mode_discards_partial_line() {
    let mut reader = Reader::new();
    let mut events = type_in(&mut reader, Mode::Line, "ab");
    events.extend(reader.feed(Mode::Symbol, Ok(TermionKey::Char('c'))));
    assert_eq!(events, vec![Input::Symbol(Key::Char('c'))]);
    assert_eq!(reader.pending(), Vec::<char>::new());
    events.extend(type_in(&mut reader, Mode::Line, "d\n"));
    assert_eq!(
        events,
        vec![Input::Symbol(Key::Char('c')), Input::Line("d".to_string())]
    );
}

#[test]
fn mode_is_read_anew_for_every_key() {
    let mut reader = Reader::new();
    let mut events = Vec::new();
    events.extend(reader.feed(Mode::Symbol, Ok(TermionKey::Char('a'))));
    events.extend(reader.feed(Mode::Line, Ok(TermionKey::Char('b'))));
    events.extend(reader.feed(Mode::Line, Ok(TermionKey::Char('\n'))));
    events.extend(reader.feed(Mode::Symbol, Ok(TermionKey::Down)));
    assert_eq!(
        events,
        vec![
            Input::Symbol(Key::Char('a')),
            Input::Line("b".to_string()),
            Input::Symbol(Key::Down),
        ]
    );
}

#[test]
fn symbol_mode_emits_every_key_variant() {
    let pairs = vec![
        (TermionKey::Backspace, Key::Backspace),
        (TermionKey::Left, Key::Left),
        (TermionKey::Right, Key::Right),
        (TermionKey::Up, Key::Up),
        (TermionKey::Down, Key::Down),
        (TermionKey::Home, Key::Home),
        (TermionKey::End, Key::End),
        (TermionKey::PageUp, Key::PageUp),
        (TermionKey::PageDown, Key::PageDown),
        (TermionKey::Delete, Key::Delete),
        (TermionKey::Insert, Key::Insert),
        (TermionKey::F(12), Key::F(12)),
        (TermionKey::Char('q'), Key::Char('q')),
        (TermionKey::Alt('q'), Key::Alt('q')),
        (TermionKey::Ctrl('q'), Key::Ctrl('q')),
        (TermionKey::Null, Key::Null),
        (TermionKey::Esc, Key::Esc),
        (TermionKey::__IsNotComplete, Key::__IsNotComplete),
    ];
    let mut reader = Reader::new();
    for (raw, key) in pairs {
        assert_eq!(reader.feed(Mode::Symbol, Ok(raw)), Some(Input::Symbol(key)));
        assert_eq!(reader.pending(), Vec::<char>::new());
    }
}
