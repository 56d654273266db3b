//! What the reader does over a whole sequence of reads, and the laws that
//! hold of it in each mode.

use crate::input::{buffer_after, emitted, InputView, Mode, Read};
use crate::key::logical_key;
use termion::event::Key as TermionKey;
use vstd::prelude::*;

verus! {

/// The line buffer after the reads were handled in order, each under the
/// mode that was active when it arrived.
pub open spec fn buffer_after_all(buffer: Seq<char>, reads: Seq<(Mode, Read)>) -> Seq<char>
    decreases reads.len(),
{
    if reads.len() == 0 {
        buffer
    } else {
        let before = buffer_after_all(buffer, reads.drop_last());
        buffer_after(before, reads.last().0, reads.last().1)
    }
}

/// The events that handling the reads in order emits, in the order of their
/// emission.
pub open spec fn emitted_by_all(buffer: Seq<char>, reads: Seq<(Mode, Read)>) -> Seq<InputView>
    decreases reads.len(),
{
    if reads.len() == 0 {
        Seq::empty()
    } else {
        let before = buffer_after_all(buffer, reads.drop_last());
        let earlier = emitted_by_all(buffer, reads.drop_last());
        match emitted(before, reads.last().0, reads.last().1) {
            Some(event) => earlier.push(event),
            None => earlier,
        }
    }
}

/// The reads, all of them arriving under one mode.
pub open spec fn under(mode: Mode, reads: Seq<Read>) -> Seq<(Mode, Read)> {
    reads.map_values(|read: Read| (mode, read))
}

/// The keys of the reads that succeeded, in their order.
pub open spec fn decoded(reads: Seq<Read>) -> Seq<TermionKey> {
    reads.filter(|read: Read| read is Ok).map_values(|read: Read| read->Ok_0)
}

/// The read that typing one character produces.
pub open spec fn typed_char(c: char) -> Read {
    Ok(TermionKey::Char(c))
}

/// The reads that typing the characters produces.
pub open spec fn typed(chars: Seq<char>) -> Seq<Read> {
    chars.map_values(|c: char| typed_char(c))
}

/// Leaving out the last read and putting the rest under a mode come to the
/// same in either order.
proof fn lemma_under_drop_last(mode: Mode, reads: Seq<Read>)
    requires
        reads.len() > 0,
    ensures
        under(mode, reads).len() == reads.len(),
        under(mode, reads).drop_last() == under(mode, reads.drop_last()),
        under(mode, reads).last() == (mode, reads.last()),
{
    assert(under(mode, reads).drop_last() =~= under(mode, reads.drop_last()));
}

/// Typing all but the last character gives all but the last read.
proof fn lemma_typed_drop_last(chars: Seq<char>)
    requires
        chars.len() > 0,
    ensures
        typed(chars).len() == chars.len(),
        typed(chars).drop_last() == typed(chars.drop_last()),
        typed(chars).last() == typed_char(chars.last()),
{
    assert(typed(chars).drop_last() =~= typed(chars.drop_last()));
}

/// In symbol mode the emitted events are the successfully decoded keys, as
/// many and in the same order, each as the symbol of its logical key; failed
/// reads leave no trace.
pub proof fn lemma_symbol_mode_emits_decoded_keys(buffer: Seq<char>, reads: Seq<Read>)
    ensures
        emitted_by_all(buffer, under(Mode::Symbol, reads)) == decoded(reads).map_values(
            |raw: TermionKey| InputView::Symbol(logical_key(raw)),
        ),
        emitted_by_all(buffer, under(Mode::Symbol, reads)).len() == reads.filter(
            |read: Read| read is Ok,
        ).len(),
    decreases reads.len(),
{
    reveal(Seq::filter);
    let symbol = |raw: TermionKey| InputView::Symbol(logical_key(raw));
    if reads.len() > 0 {
        lemma_symbol_mode_emits_decoded_keys(buffer, reads.drop_last());
        lemma_under_drop_last(Mode::Symbol, reads);
        if reads.last() is Ok {
            assert(decoded(reads) == decoded(reads.drop_last()).push(reads.last()->Ok_0));
            assert(decoded(reads).map_values(symbol) == decoded(reads.drop_last()).map_values(
                symbol,
            ).push(symbol(reads.last()->Ok_0)));
        }
    } else {
        assert(decoded(reads).map_values(symbol) == Seq::<InputView>::empty());
    }
}

/// Once a read has been handled in symbol mode no partial line is left.
pub proof fn lemma_symbol_mode_discards_buffer(buffer: Seq<char>, reads: Seq<Read>)
    requires
        reads.len() > 0,
    ensures
        buffer_after_all(buffer, under(Mode::Symbol, reads)) == Seq::<char>::empty(),
{
    lemma_under_drop_last(Mode::Symbol, reads);
}

/// In line mode, characters other than the newline emit nothing and gather
/// behind what the buffer held, in the order they were typed.
pub proof fn lemma_line_mode_accumulates(buffer: Seq<char>, chars: Seq<char>)
    requires
        !chars.contains('\n'),
    ensures
        emitted_by_all(buffer, under(Mode::Line, typed(chars))) == Seq::<InputView>::empty(),
        buffer_after_all(buffer, under(Mode::Line, typed(chars))) == buffer + chars,
    decreases chars.len(),
{
    if chars.len() > 0 {
        let rest = chars.drop_last();
        assert(!rest.contains('\n')) by {
            if rest.contains('\n') {
                let i = choose|i: int| 0 <= i < rest.len() && rest[i] == '\n';
                assert(chars[i] == '\n');
            }
        }
        lemma_line_mode_accumulates(buffer, rest);
        lemma_typed_drop_last(chars);
        lemma_under_drop_last(Mode::Line, typed(chars));
        assert(chars.last() != '\n') by {
            assert(chars[chars.len() - 1] == chars.last());
        }
        assert((buffer + rest).push(chars.last()) == buffer + chars);
    } else {
        assert(buffer + chars == buffer);
    }
}

/// In line mode, a newline typed after characters other than the newline
/// emits exactly one event, the line made of the buffer and those characters,
/// and leaves the buffer empty.
pub proof fn lemma_line_mode_completes_line(buffer: Seq<char>, chars: Seq<char>)
    requires
        !chars.contains('\n'),
    ensures
        emitted_by_all(buffer, under(Mode::Line, typed(chars.push('\n')))) == seq![
            InputView::Line(buffer + chars),
        ],
        buffer_after_all(buffer, under(Mode::Line, typed(chars.push('\n')))) == Seq::<
            char,
        >::empty(),
{
    lemma_line_mode_accumulates(buffer, chars);
    assert(chars.push('\n').drop_last() == chars);
    lemma_typed_drop_last(chars.push('\n'));
    lemma_under_drop_last(Mode::Line, typed(chars.push('\n')));
}

/// Handling one sequence of reads after another is handling the two as one:
/// the second starts from the buffer that the first left, and its events
/// follow those of the first.
pub proof fn lemma_replay_splits(
    buffer: Seq<char>,
    first: Seq<(Mode, Read)>,
    second: Seq<(Mode, Read)>,
)
    ensures
        buffer_after_all(buffer, first + second) == buffer_after_all(
            buffer_after_all(buffer, first),
            second,
        ),
        emitted_by_all(buffer, first + second) == emitted_by_all(buffer, first) + emitted_by_all(
            buffer_after_all(buffer, first),
            second,
        ),
    decreases second.len(),
{
    if second.len() == 0 {
        assert(first + second == first);
        assert(emitted_by_all(buffer, first) + Seq::<InputView>::empty() == emitted_by_all(
            buffer,
            first,
        ));
    } else {
        lemma_replay_splits(buffer, first, second.drop_last());
        assert((first + second).drop_last() == first + second.drop_last());
        assert((first + second).last() == second.last());
        let middle = buffer_after_all(buffer, first);
        let before = buffer_after_all(middle, second.drop_last());
        match emitted(before, second.last().0, second.last().1) {
            Some(event) => {
                assert((emitted_by_all(buffer, first) + emitted_by_all(
                    middle,
                    second.drop_last(),
                )).push(event) == emitted_by_all(buffer, first) + emitted_by_all(
                    middle,
                    second.drop_last(),
                ).push(event));
            },
            None => {},
        }
    }
}

/// A partial line does not survive a stay in symbol mode. When a line is
/// begun, then keys arrive in symbol mode, and then a line is typed and
/// completed in line mode, the events are the symbols of the decoded keys
/// followed by the second line alone: nothing of the first is ever emitted.
pub proof fn lemma_partial_line_is_discarded(
    partial: Seq<char>,
    reads: Seq<Read>,
    chars: Seq<char>,
)
    requires
        !partial.contains('\n'),
        reads.len() > 0,
        !chars.contains('\n'),
    ensures
        emitted_by_all(
            Seq::empty(),
            under(Mode::Line, typed(partial)) + under(Mode::Symbol, reads) + under(
                Mode::Line,
                typed(chars.push('\n')),
            ),
        ) == decoded(reads).map_values(|raw: TermionKey| InputView::Symbol(logical_key(raw)))
            + seq![InputView::Line(chars)],
{
    let begun = under(Mode::Line, typed(partial));
    let keys = under(Mode::Symbol, reads);
    let line = under(Mode::Line, typed(chars.push('\n')));
    let held = buffer_after_all(Seq::empty(), begun);
    lemma_line_mode_accumulates(Seq::empty(), partial);
    lemma_symbol_mode_emits_decoded_keys(held, reads);
    lemma_symbol_mode_discards_buffer(held, reads);
    lemma_line_mode_completes_line(Seq::empty(), chars);
    lemma_replay_splits(Seq::empty(), begun, keys);
    lemma_replay_splits(Seq::empty(), begun + keys, line);
    assert(Seq::<char>::empty() + chars == chars);
    assert(Seq::<InputView>::empty() + emitted_by_all(held, keys) == emitted_by_all(held, keys));
}

} // verus!
