//! How a text falls into lines.
//!
//! A line break is one of LF, VT, FF, CR, NEL, LS and PS, or the pair CR LF,
//! which counts as one break. A line runs up to and including the break that
//! ends it; the last line has none. A text that ends in a break therefore
//! ends in an empty line, and the empty text is one empty line.

use vstd::prelude::*;

verus! {

/// Whether `c` by itself ends a line.
pub open spec fn is_line_break(c: char) -> bool {
    c == '\u{000A}' || c == '\u{000B}' || c == '\u{000C}' || c == '\u{000D}' || c == '\u{0085}'
        || c == '\u{2028}' || c == '\u{2029}'
}

/// The length of the line break that `text` begins with: 2 for CR LF, 1 for
/// any other break, 0 where `text` begins with none.
pub open spec fn leading_break_len(text: Seq<char>) -> nat {
    if text.len() >= 2 && text[0] == '\u{000D}' && text[1] == '\u{000A}' {
        2
    } else if text.len() >= 1 && is_line_break(text[0]) {
        1
    } else {
        0
    }
}

/// The length of the line break that `line` ends with, 0 where it ends with
/// none.
pub open spec fn trailing_break_len(line: Seq<char>) -> nat {
    if line.len() >= 2 && line[line.len() - 2] == '\u{000D}' && line[line.len() - 1]
        == '\u{000A}' {
        2
    } else if line.len() >= 1 && is_line_break(line[line.len() - 1]) {
        1
    } else {
        0
    }
}

/// The length of the first line of `text`, its line break included.
pub open spec fn first_line_len(text: Seq<char>) -> nat
    decreases text.len(),
{
    if text.len() == 0 {
        0
    } else if leading_break_len(text) > 0 {
        leading_break_len(text)
    } else {
        1 + first_line_len(text.drop_first())
    }
}

/// The lines of `text`, each with the line break that ends it.
pub open spec fn split_lines(text: Seq<char>) -> Seq<Seq<char>>
    decreases text.len(),
{
    let n = first_line_len(text);
    if 0 < n < text.len() {
        seq![text.take(n as int)] + split_lines(text.skip(n as int))
    } else if text.len() > 0 && is_line_break(text.last()) {
        seq![text, Seq::empty()]
    } else {
        seq![text]
    }
}

/// A line without the line break that ends it.
pub open spec fn line_content(line: Seq<char>) -> Seq<char> {
    line.take(line.len() - trailing_break_len(line))
}

/// The lines of `text`, without their line breaks.
pub open spec fn text_lines(text: Seq<char>) -> Seq<Seq<char>> {
    Seq::new(split_lines(text).len(), |i: int| line_content(split_lines(text)[i]))
}

/// Every text has at least one line.
pub proof fn lemma_split_lines_nonempty(text: Seq<char>)
    ensures
        split_lines(text).len() >= 1,
        text_lines(text).len() == split_lines(text).len(),
{
}

/// The first line is part of the text, and empty only where the text is.
pub proof fn lemma_first_line_len(text: Seq<char>)
    ensures
        first_line_len(text) <= text.len(),
        text.len() > 0 ==> first_line_len(text) >= 1,
    decreases text.len(),
{
    if text.len() > 0 && leading_break_len(text) == 0 {
        lemma_first_line_len(text.drop_first());
    }
}

/// The first line holds no line break before the one that ends it, and it
/// ends with one unless it is the whole text.
pub proof fn lemma_first_line_shape(text: Seq<char>)
    ensures
        forall|j: int|
            0 <= j < line_content(text.take(first_line_len(text) as int)).len()
                ==> !is_line_break(#[trigger] text[j]),
        first_line_len(text) < text.len() ==> trailing_break_len(
            text.take(first_line_len(text) as int),
        ) > 0,
    decreases text.len(),
{
    let n = first_line_len(text) as int;
    if text.len() > 0 && leading_break_len(text) == 0 {
        let rest = text.drop_first();
        let m = first_line_len(rest) as int;
        lemma_first_line_len(rest);
        lemma_first_line_shape(rest);
        let line = text.take(n);
        let tail = rest.take(m);
        assert(line == seq![text[0]] + tail);
        assert(trailing_break_len(line) == trailing_break_len(tail));
        assert forall|j: int| 0 <= j < line_content(line).len() implies !is_line_break(
            #[trigger] text[j],
        ) by {
            if j > 0 {
                assert(text[j] == rest[j - 1]);
            }
        }
    }
}

/// Put end to end, the lines are the text again: nothing is lost and
/// nothing is added.
pub proof fn lemma_split_lines_rejoin(text: Seq<char>)
    ensures
        split_lines(text).flatten() == text,
    decreases text.len(),
{
    let n = first_line_len(text);
    let none = Seq::<Seq<char>>::empty();
    if 0 < n < text.len() {
        let rest = split_lines(text.skip(n as int));
        lemma_split_lines_rejoin(text.skip(n as int));
        let lines = seq![text.take(n as int)] + rest;
        assert(lines.drop_first() == rest);
    } else if text.len() > 0 && is_line_break(text.last()) {
        let lines = seq![text, Seq::<char>::empty()];
        let last = seq![Seq::<char>::empty()];
        assert(lines.drop_first() == last);
        assert(last.drop_first() == none);
        assert(last.flatten() == Seq::<char>::empty() + none.flatten());
    } else {
        let lines = seq![text];
        assert(lines.drop_first() == none);
        assert(lines.flatten() == text + none.flatten());
    }
}

/// Every line but the last ends with a line break, and the last with none.
pub proof fn lemma_split_lines_breaks(text: Seq<char>, i: int)
    requires
        0 <= i < split_lines(text).len(),
    ensures
        i < split_lines(text).len() - 1 <==> trailing_break_len(split_lines(text)[i]) > 0,
    decreases text.len(),
{
    let n = first_line_len(text);
    lemma_first_line_len(text);
    lemma_first_line_shape(text);
    if 0 < n < text.len() {
        lemma_split_lines_nonempty(text.skip(n as int));
        if i > 0 {
            lemma_split_lines_breaks(text.skip(n as int), i - 1);
        }
    } else if text.len() > 0 {
        assert(text.take(n as int) == text);
    }
}

/// No line holds a line break but at its end: the content of a line holds
/// none.
pub proof fn lemma_text_lines_hold_no_break(text: Seq<char>, i: int, j: int)
    requires
        0 <= i < text_lines(text).len(),
        0 <= j < text_lines(text)[i].len(),
    ensures
        !is_line_break(text_lines(text)[i][j]),
    decreases text.len(),
{
    let n = first_line_len(text);
    lemma_first_line_len(text);
    lemma_first_line_shape(text);
    if 0 < n < text.len() {
        if i > 0 {
            lemma_text_lines_hold_no_break(text.skip(n as int), i - 1, j);
        }
    } else if text.len() > 0 {
        assert(text.take(n as int) == text);
    }
}

/// Tells whether `c` by itself ends a line.
pub fn is_line_break_char(c: char) -> (b: bool)
    ensures
        b == is_line_break(c),
{
    c == '\u{000A}' || c == '\u{000B}' || c == '\u{000C}' || c == '\u{000D}' || c == '\u{0085}'
        || c == '\u{2028}' || c == '\u{2029}'
}

} // verus!
