//! The text buffer: a text held in a rope and read line by line.

use crate::lines::is_line_break;
use crate::lines::is_line_break_char;
use crate::lines::lemma_text_lines_hold_no_break;
use crate::lines::line_content;
use crate::lines::text_lines;
use crate::trusted::rope::rope_from_reader;
use crate::trusted::rope::rope_text;
use crate::trusted::rope::slice_chars;
use crate::trusted::rope::slice_prefix;
use crate::trusted::rope::slice_to_string;
use ropey::Rope;
use ropey::RopeSlice;
use vstd::prelude::*;
use vstd::utf8::*;

verus! {

/// Why a buffer could not be made or read.
#[derive(Clone, Copy, Debug, PartialEq, Eq, Structural)]
pub enum BufferError {
    /// The source could not be read as text.
    IoError,
    /// The buffer has no line with that index.
    OutOfRange,
}

/// An immutable text, addressed by line. Its view is the sequence of its
/// lines, each without the line break that ends it.
pub struct TextBuffer {
    rope: Rope,
}

impl View for TextBuffer {
    type V = Seq<Seq<char>>;

    closed spec fn view(&self) -> Seq<Seq<char>> {
        text_lines(self.text())
    }
}

/// The number of chars of `slice` before the line break that ends it.
fn content_len(slice: &RopeSlice) -> (n: usize)
    ensures
        n == line_content(slice_chars(*slice)).len(),
{
    let len = slice.len_chars();
    if len >= 2 && slice.char(len - 2) == '\u{000D}' && slice.char(len - 1) == '\u{000A}' {
        len - 2
    } else if len >= 1 && is_line_break_char(slice.char(len - 1)) {
        len - 1
    } else {
        len
    }
}

impl TextBuffer {
    /// The whole text, line breaks included.
    pub closed spec fn text(&self) -> Seq<char> {
        rope_text(self.rope)
    }

    /// The lines are those of the text. There is at least one, and none
    /// holds a line break.
    pub proof fn lemma_lines(&self)
        ensures
            self@ == text_lines(self.text()),
            self@.len() >= 1,
            forall|i: int, j: int|
                0 <= i < self@.len() && 0 <= j < self@[i].len() ==> !is_line_break(
                    #[trigger] self@[i][j],
                ),
    {
        assert forall|i: int, j: int|
            0 <= i < self@.len() && 0 <= j < self@[i].len() implies !is_line_break(
            #[trigger] self@[i][j],
        ) by {
            lemma_text_lines_hold_no_break(self.text(), i, j);
        }
    }

    /// Makes a buffer from the bytes of a source. Bytes that are not UTF-8
    /// are refused; any others give the buffer of the text they encode.
    pub fn load(source: &[u8]) -> (res: Result<TextBuffer, BufferError>)
        ensures
            valid_utf8(source@) ==> res is Ok && res->Ok_0.text() == decode_utf8(source@)
                && res->Ok_0@ == text_lines(decode_utf8(source@)),
            !valid_utf8(source@) ==> res == Err::<TextBuffer, BufferError>(BufferError::IoError),
    {
        match rope_from_reader(source) {
            Ok(rope) => Ok(TextBuffer { rope }),
            Err(_) => Err(BufferError::IoError),
        }
    }

    /// The number of lines.
    pub fn line_count(&self) -> (n: usize)
        ensures
            n == self@.len(),
            n >= 1,
    {
        self.rope.len_lines()
    }

    /// The length of a line in chars, its line break not counted.
    pub fn line_length(&self, index: usize) -> (n: usize)
        requires
            index < self@.len(),
        ensures
            n == self@[index as int].len(),
    {
        let slice = self.rope.line(index);
        content_len(&slice)
    }

    /// The first `max_chars` chars of a line, or the whole line where it has
    /// no more. The line break is no part of the line.
    pub fn line_prefix(&self, index: usize, max_chars: usize) -> (prefix: String)
        requires
            index < self@.len(),
        ensures
            prefix@ == self@[index as int].take(
                if max_chars <= self@[index as int].len() {
                    max_chars as int
                } else {
                    self@[index as int].len() as int
                },
            ),
    {
        let slice = self.rope.line(index);
        let len = content_len(&slice);
        let end = if max_chars <= len {
            max_chars
        } else {
            len
        };
        let cut = slice_prefix(&slice, end);
        assert(slice_chars(slice).take(end as int) == line_content(slice_chars(slice)).take(
            end as int,
        ));
        slice_to_string(cut)
    }

    /// A line, without the line break that ends it.
    pub fn line(&self, index: usize) -> (res: Result<String, BufferError>)
        ensures
            index < self@.len() ==> res is Ok && res->Ok_0@ == self@[index as int],
            index >= self@.len() ==> res == Err::<String, BufferError>(BufferError::OutOfRange),
    {
        if index < self.line_count() {
            let len = self.line_length(index);
            let text = self.line_prefix(index, len);
            Ok(text)
        } else {
            Err(BufferError::OutOfRange)
        }
    }
}

} // verus!
