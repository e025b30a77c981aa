//! The cursor, the four movements, and the clamp pass that brings a cursor
//! back into the text and out of the gutter.

use crate::buffer::TextBuffer;
use vstd::prelude::*;

verus! {

/// A place on the grid as the mathematics sees it: any row and column,
/// clamped or not.
pub struct Position {
    /// The line, counted from 0.
    pub row: int,
    /// The column of the rendered row, counted from 0 at the gutter's left
    /// edge.
    pub col: int,
}

/// The cursor: a row of the buffer and a column of the rendered row, gutter
/// included. Between a movement and the clamp pass it may lie anywhere.
#[derive(Clone, Copy, Debug, PartialEq, Eq, Structural)]
pub struct Cursor {
    /// The line, counted from 0.
    pub row: i32,
    /// The column of the rendered row, counted from 0 at the gutter's left
    /// edge.
    pub col: i32,
}

/// One step of the cursor.
#[derive(Clone, Copy, Debug, PartialEq, Eq, Structural)]
pub enum Movement {
    /// One row up.
    Up,
    /// One row down.
    Down,
    /// One column to the left.
    Left,
    /// One column to the right.
    Right,
}

impl View for Cursor {
    type V = Position;

    open spec fn view(&self) -> Position {
        Position { row: self.row as int, col: self.col as int }
    }
}

/// Where a movement leads from `p`, before any clamping.
pub open spec fn moved(p: Position, movement: Movement) -> Position {
    match movement {
        Movement::Up => Position { row: p.row - 1, col: p.col },
        Movement::Down => Position { row: p.row + 1, col: p.col },
        Movement::Left => Position { row: p.row, col: p.col - 1 },
        Movement::Right => Position { row: p.row, col: p.col + 1 },
    }
}

/// `x` brought into `lo..=hi`.
pub open spec fn clamp_int(x: int, lo: int, hi: int) -> int {
    if x < lo {
        lo
    } else if x > hi {
        hi
    } else {
        x
    }
}

/// The leftmost column that the cursor may take: the one after the gutter's
/// separator.
pub open spec fn min_col(gutter: nat) -> int {
    gutter as int + 1
}

/// The rightmost column that the cursor may take on a line of `line_len`
/// chars.
pub open spec fn max_col(line_len: nat, gutter: nat) -> int {
    if line_len + gutter - 1 > min_col(gutter) {
        line_len + gutter - 1
    } else {
        min_col(gutter)
    }
}

/// Whether `p` is on a line of the buffer and, on that line, within the
/// columns that the cursor may take.
pub open spec fn in_bounds(p: Position, lines: Seq<Seq<char>>, gutter: nat) -> bool {
    &&& 0 <= p.row < lines.len()
    &&& min_col(gutter) <= p.col <= max_col(lines[p.row].len(), gutter)
}

/// The clamp pass: the row is brought into the buffer, then the column into
/// the columns allowed on that row.
pub open spec fn clamped(p: Position, lines: Seq<Seq<char>>, gutter: nat) -> Position {
    let row = clamp_int(p.row, 0, lines.len() - 1);
    Position { row, col: clamp_int(p.col, min_col(gutter), max_col(lines[row].len(), gutter)) }
}

/// Where the cursor is after a series of movements from `p`, with a clamp
/// pass before the first and after each.
pub open spec fn after_moves(
    p: Position,
    movements: Seq<Movement>,
    lines: Seq<Seq<char>>,
    gutter: nat,
) -> Position
    decreases movements.len(),
{
    if movements.len() == 0 {
        clamped(p, lines, gutter)
    } else {
        clamped(
            moved(after_moves(p, movements.drop_last(), lines, gutter), movements.last()),
            lines,
            gutter,
        )
    }
}

/// The clamp pass lands within bounds, wherever it starts: on a row of the
/// buffer, and right of the gutter.
pub proof fn lemma_clamped_in_bounds(p: Position, lines: Seq<Seq<char>>, gutter: nat)
    requires
        lines.len() >= 1,
    ensures
        in_bounds(clamped(p, lines, gutter), lines, gutter),
        0 <= clamped(p, lines, gutter).row < lines.len(),
        clamped(p, lines, gutter).col > gutter,
{
}

/// The clamp pass leaves a cursor within bounds where it is.
pub proof fn lemma_clamped_keeps_in_bounds(p: Position, lines: Seq<Seq<char>>, gutter: nat)
    requires
        in_bounds(p, lines, gutter),
    ensures
        clamped(p, lines, gutter) == p,
{
}

/// Clamping twice is clamping once, for any starting row and column.
pub proof fn lemma_clamped_idempotent(p: Position, lines: Seq<Seq<char>>, gutter: nat)
    requires
        lines.len() >= 1,
    ensures
        clamped(clamped(p, lines, gutter), lines, gutter) == clamped(p, lines, gutter),
{
    lemma_clamped_in_bounds(p, lines, gutter);
    lemma_clamped_keeps_in_bounds(clamped(p, lines, gutter), lines, gutter);
}

/// On an empty line the cursor rests in the first column after the gutter.
pub proof fn lemma_clamped_on_empty_line(p: Position, lines: Seq<Seq<char>>, gutter: nat)
    requires
        lines.len() >= 1,
        lines[clamped(p, lines, gutter).row].len() == 0,
    ensures
        clamped(p, lines, gutter).col == gutter + 1,
{
}

/// A movement that ends on an empty line puts the cursor in the first column
/// after the gutter.
pub proof fn lemma_move_onto_empty_line(
    p: Position,
    movement: Movement,
    lines: Seq<Seq<char>>,
    gutter: nat,
)
    requires
        lines.len() >= 1,
        lines[clamped(moved(p, movement), lines, gutter).row].len() == 0,
    ensures
        clamped(moved(p, movement), lines, gutter).col == gutter + 1,
{
    lemma_clamped_on_empty_line(moved(p, movement), lines, gutter);
}

/// Whatever the movements, the cursor is within bounds after each clamp
/// pass: its row is a row of the buffer and its column is right of the
/// gutter.
pub proof fn lemma_after_moves_in_bounds(
    p: Position,
    movements: Seq<Movement>,
    lines: Seq<Seq<char>>,
    gutter: nat,
)
    requires
        lines.len() >= 1,
    ensures
        in_bounds(after_moves(p, movements, lines, gutter), lines, gutter),
        0 <= after_moves(p, movements, lines, gutter).row < lines.len(),
        after_moves(p, movements, lines, gutter).col > gutter,
{
    if movements.len() == 0 {
        lemma_clamped_in_bounds(p, lines, gutter);
    } else {
        let before = after_moves(p, movements.drop_last(), lines, gutter);
        lemma_clamped_in_bounds(moved(before, movements.last()), lines, gutter);
    }
}

impl Cursor {
    /// Whether the movement keeps the cursor within the range of its
    /// coordinates.
    pub open spec fn can_shift(self, movement: Movement) -> bool {
        match movement {
            Movement::Up => self.row > i32::MIN,
            Movement::Down => self.row < i32::MAX,
            Movement::Left => self.col > i32::MIN,
            Movement::Right => self.col < i32::MAX,
        }
    }

    /// Tells whether the movement keeps the cursor within the range of its
    /// coordinates.
    pub fn check_shift(&self, movement: Movement) -> (ok: bool)
        ensures
            ok == self.can_shift(movement),
    {
        match movement {
            Movement::Up => self.row > i32::MIN,
            Movement::Down => self.row < i32::MAX,
            Movement::Left => self.col > i32::MIN,
            Movement::Right => self.col < i32::MAX,
        }
    }

    /// Applies a movement as it is, with no clamping.
    pub fn shift(&mut self, movement: Movement)
        requires
            old(self).can_shift(movement),
        ensures
            final(self)@ == moved(old(self)@, movement),
    {
        match movement {
            Movement::Up => {
                self.row = self.row - 1;
            },
            Movement::Down => {
                self.row = self.row + 1;
            },
            Movement::Left => {
                self.col = self.col - 1;
            },
            Movement::Right => {
                self.col = self.col + 1;
            },
        }
    }

    /// The clamp pass. A row above the buffer becomes the first row, a row
    /// below it the last. Then, by the length of that row's line: a negative
    /// column becomes 0; a column at or past the line's length plus the
    /// gutter becomes the last column allowed; and a column in the gutter
    /// becomes the first column after it.
    pub fn clamp(&mut self, buffer: &TextBuffer, gutter_width: usize)
        requires
            gutter_width < i32::MAX,
        ensures
            final(self)@ == clamped(old(self)@, buffer@, gutter_width as nat),
            in_bounds(final(self)@, buffer@, gutter_width as nat),
    {
        let count = buffer.line_count();
        if self.row < 0 {
            self.row = 0;
        } else if self.row as i128 >= count as i128 {
            self.row = (count - 1) as i32;
        }
        let line_len = buffer.line_length(self.row as usize);
        let limit: i128 = line_len as i128 + gutter_width as i128;
        let first: i32 = (gutter_width + 1) as i32;
        if self.col < 0 {
            self.col = 0;
        } else if self.col as i128 >= limit {
            self.col = if limit - 1 > first as i128 {
                (limit - 1) as i32
            } else {
                first
            };
        }
        if self.col <= gutter_width as i32 {
            self.col = first;
        }
    }
}

} // verus!
