//! The frame: what a terminal of a given size shows of a buffer.
//!
//! The frame always starts at the buffer's first line. Each row holds a
//! label, the line's number right-aligned in the gutter and one space, and
//! the line's content, cut where the terminal's columns end.

use crate::buffer::TextBuffer;
use crate::cursor::clamped;
use crate::cursor::in_bounds;
use crate::cursor::Cursor;
use crate::cursor::Position;
use crate::digits::decimal;
use crate::digits::digit_count;
use crate::digits::lemma_decimal_len;
use crate::digits::lemma_digit_count_monotonic;
use crate::digits::num_digits;
use crate::digits::push_decimal;
use vstd::prelude::*;

verus! {

/// One row of the frame.
#[derive(Debug, PartialEq, Eq)]
pub struct Row {
    /// The line's number, right-aligned in the gutter, and a space.
    pub label: String,
    /// The part of the line that the terminal has columns for.
    pub content: String,
}

/// What to draw: the rows, and the place of the cursor.
#[derive(Debug, PartialEq, Eq)]
pub struct Frame {
    /// The rows, top to bottom, the first for the buffer's first line.
    pub rows: Vec<Row>,
    /// Where the terminal's cursor goes.
    pub cursor: Cursor,
}

/// The terminal's size and the gutter's width, as they are for one frame.
#[derive(Clone, Copy, Debug, PartialEq, Eq, Structural)]
pub struct Viewport {
    /// The terminal's rows.
    pub height: usize,
    /// The terminal's columns.
    pub width: usize,
    /// The columns that the line numbers take.
    pub gutter_width: usize,
}

/// `count` spaces.
pub open spec fn spaces(count: nat) -> Seq<char> {
    Seq::new(count, |i: int| ' ')
}

/// How many spaces stand before a number of `digits` digits in a gutter of
/// `width` columns.
pub open spec fn padding(digits: nat, width: nat) -> nat {
    if width > digits {
        (width - digits) as nat
    } else {
        0
    }
}

/// The label of line `number` in a gutter of `width` columns: the number in
/// decimal, spaces before it where it is shorter than the gutter, and one
/// space after it.
pub open spec fn label_text(number: nat, width: nat) -> Seq<char> {
    spaces(padding(decimal(number).len(), width)) + decimal(number) + seq![' ']
}

/// How many columns a terminal `width` columns wide has left for content,
/// after the gutter and its space.
pub open spec fn content_width(width: nat, gutter: nat) -> nat {
    if width > gutter + 1 {
        (width - gutter - 1) as nat
    } else {
        0
    }
}

/// The part of `line` that is drawn: what fits into the columns left for
/// content. The rest is not drawn, and nothing wraps.
pub open spec fn shown(line: Seq<char>, width: nat, gutter: nat) -> Seq<char> {
    if line.len() <= content_width(width, gutter) {
        line
    } else {
        line.take(content_width(width, gutter) as int)
    }
}

/// How many rows are drawn: one per line, as far as the terminal has rows.
pub open spec fn row_count(height: nat, lines: nat) -> nat {
    if height < lines {
        height
    } else {
        lines
    }
}

impl Row {
    /// Whether this is the row of line `index` of `lines`.
    pub open spec fn shows(
        &self,
        index: int,
        lines: Seq<Seq<char>>,
        gutter: nat,
        width: nat,
    ) -> bool {
        &&& self.label@ == label_text((index + 1) as nat, gutter)
        &&& self.content@ == shown(lines[index], width, gutter)
    }
}

impl Frame {
    /// Whether this is the frame of `lines` in `viewport`, with the cursor at
    /// `cursor`: the rows are those of the first lines, as many as are
    /// visible, in order.
    pub open spec fn shows(
        &self,
        lines: Seq<Seq<char>>,
        cursor: Position,
        viewport: Viewport,
    ) -> bool {
        &&& self.rows@.len() == row_count(viewport.height as nat, lines.len())
        &&& forall|i: int|
            0 <= i < self.rows@.len() ==> (#[trigger] self.rows@[i]).shows(
                i,
                lines,
                viewport.gutter_width as nat,
                viewport.width as nat,
            )
        &&& self.cursor@ == cursor
    }
}

impl Viewport {
    /// The viewport of `buffer` on a terminal of `height` rows and `width`
    /// columns: the gutter is as wide as the line count has digits.
    pub fn for_buffer(buffer: &TextBuffer, height: usize, width: usize) -> (viewport: Viewport)
        ensures
            viewport.height == height,
            viewport.width == width,
            viewport.gutter_width == digit_count(buffer@.len()),
    {
        Viewport { height, width, gutter_width: num_digits(buffer.line_count()) }
    }

    /// How many rows are drawn of a buffer of `line_count` lines.
    pub fn visible_rows(&self, line_count: usize) -> (rows: usize)
        ensures
            rows == row_count(self.height as nat, line_count as nat),
    {
        if self.height < line_count {
            self.height
        } else {
            line_count
        }
    }

    /// How many columns are left for content.
    pub fn content_columns(&self) -> (columns: usize)
        ensures
            columns == content_width(self.width as nat, self.gutter_width as nat),
    {
        if self.width > self.gutter_width && self.width - self.gutter_width > 1 {
            self.width - self.gutter_width - 1
        } else {
            0
        }
    }
}

/// A label is as wide as the gutter and its space, unless the number has
/// more digits than the gutter has columns.
pub proof fn lemma_label_len(number: nat, width: nat)
    requires
        number >= 1,
    ensures
        digit_count(number) <= width ==> label_text(number, width).len() == width + 1,
        digit_count(number) > width ==> label_text(number, width).len() == digit_count(number)
            + 1,
{
    lemma_decimal_len(number);
}

/// In a gutter as wide as the buffer's line count has digits, every line's
/// label takes exactly the gutter and its space.
pub proof fn lemma_label_fills_gutter(index: int, line_count: nat)
    requires
        0 <= index < line_count,
    ensures
        label_text((index + 1) as nat, digit_count(line_count)).len() == digit_count(line_count)
            + 1,
{
    lemma_digit_count_monotonic((index + 1) as nat, line_count);
    lemma_label_len((index + 1) as nat, digit_count(line_count));
}

/// Of a line longer than the terminal is wide, exactly as many chars are
/// drawn as the terminal has columns after the gutter and its space: the
/// width less the gutter less one.
pub proof fn lemma_long_line_is_cut(line: Seq<char>, width: nat, gutter: nat)
    requires
        line.len() > width,
        width > gutter,
    ensures
        shown(line, width, gutter).len() == width - gutter - 1,
        shown(line, width, gutter) == line.take(width - gutter - 1),
{
}

/// A row never runs past the terminal's last column, so nothing wraps: where
/// the terminal is wide enough for the gutter and its space, the label and
/// what is drawn of the line together take at most the terminal's width.
pub proof fn lemma_row_fits(index: int, lines: Seq<Seq<char>>, width: nat)
    requires
        0 <= index < lines.len(),
        width > digit_count(lines.len()),
    ensures
        label_text((index + 1) as nat, digit_count(lines.len())).len() + shown(
            lines[index],
            width,
            digit_count(lines.len()),
        ).len() <= width,
{
    lemma_label_fills_gutter(index, lines.len());
}

/// Makes the label of line `number` for a gutter of `width` columns.
pub fn line_label(number: usize, width: usize) -> (label: String)
    ensures
        label@ == label_text(number as nat, width as nat),
{
    let digits: usize = if number == 0 {
        1
    } else {
        num_digits(number)
    };
    proof {
        lemma_decimal_len(number as nat);
    }
    let mut label = String::new();
    let mut filled: usize = digits;
    while filled < width
        invariant
            digits <= filled,
            filled <= width || filled == digits,
            label@ == spaces((filled - digits) as nat),
        decreases width - filled,
    {
        label.push(' ');
        filled += 1;
    }
    push_decimal(&mut label, number);
    label.push(' ');
    label
}

/// Composes the frame of `buffer` in `viewport`, with the cursor where it
/// is: the render pass.
pub fn compose_frame(buffer: &TextBuffer, cursor: Cursor, viewport: Viewport) -> (frame: Frame)
    ensures
        frame.shows(buffer@, cursor@, viewport),
        forall|i: int|
            0 <= i < frame.rows@.len() && buffer@[i].len() > viewport.width
                > viewport.gutter_width ==> (#[trigger] frame.rows@[i]).content@.len()
                == viewport.width - viewport.gutter_width - 1,
{
    let count = buffer.line_count();
    let visible = viewport.visible_rows(count);
    let room = viewport.content_columns();
    let mut rows: Vec<Row> = Vec::new();
    let mut index: usize = 0;
    while index < visible
        invariant
            index <= visible <= count,
            count == buffer@.len(),
            room == content_width(viewport.width as nat, viewport.gutter_width as nat),
            rows@.len() == index,
            forall|i: int|
                0 <= i < index ==> (#[trigger] rows@[i]).shows(
                    i,
                    buffer@,
                    viewport.gutter_width as nat,
                    viewport.width as nat,
                ),
        decreases visible - index,
    {
        let label = line_label(index + 1, viewport.gutter_width);
        let content = buffer.line_prefix(index, room);
        proof {
            let line = buffer@[index as int];
            assert(line.take(line.len() as int) == line);
        }
        rows.push(Row { label, content });
        index += 1;
    }
    Frame { rows, cursor }
}

/// Brings the cursor back into bounds, then composes the frame to draw: the
/// clamp pass and the render pass in one.
pub fn print_buffer(
    buffer: &TextBuffer,
    cursor: &mut Cursor,
    line_number_width: usize,
    height: usize,
    width: usize,
) -> (frame: Frame)
    requires
        line_number_width < i32::MAX,
    ensures
        final(cursor)@ == clamped(old(cursor)@, buffer@, line_number_width as nat),
        in_bounds(final(cursor)@, buffer@, line_number_width as nat),
        frame.shows(
            buffer@,
            final(cursor)@,
            (Viewport { height, width, gutter_width: line_number_width }),
        ),
{
    cursor.clamp(buffer, line_number_width);
    compose_frame(buffer, *cursor, Viewport { height, width, gutter_width: line_number_width })
}

} // verus!
