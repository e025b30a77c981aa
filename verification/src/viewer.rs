//! The viewer's state machine: from the state and a key to the next state
//! and what to do about the display.

use crate::buffer::TextBuffer;
use crate::cursor::clamped;
use crate::cursor::in_bounds;
use crate::cursor::moved;
use crate::cursor::Cursor;
use crate::cursor::Movement;
use crate::cursor::Position;
use crate::digits::digit_count;
use crate::digits::num_digits;
use crate::frame::print_buffer;
use crate::frame::Frame;
use crate::frame::Viewport;
use vstd::prelude::*;

verus! {

/// What a key asks for.
#[derive(Clone, Copy, Debug, PartialEq, Eq, Structural)]
pub enum Command {
    /// Move the cursor one step.
    Move(Movement),
    /// Nothing: the key has no meaning here.
    Ignored,
    /// Leave the viewer.
    Quit,
}

/// What the caller is to do after a key.
#[derive(Debug, PartialEq, Eq)]
pub enum Action {
    /// Draw this frame.
    Draw(Frame),
    /// End the session.
    Quit,
}

/// The meaning of each key: `h` and `l` move left and right, `k` and `j` up
/// and down, `q` quits, and every other key is ignored.
pub open spec fn key_command(key: i32) -> Command {
    if key == 'h' as i32 {
        Command::Move(Movement::Left)
    } else if key == 'l' as i32 {
        Command::Move(Movement::Right)
    } else if key == 'k' as i32 {
        Command::Move(Movement::Up)
    } else if key == 'j' as i32 {
        Command::Move(Movement::Down)
    } else if key == 'q' as i32 {
        Command::Quit
    } else {
        Command::Ignored
    }
}

/// Where a command leaves a cursor that was at `p`: a movement is applied
/// and clamped, anything else leaves the cursor where it is.
pub open spec fn next_position(
    p: Position,
    command: Command,
    lines: Seq<Seq<char>>,
    gutter: nat,
) -> Position {
    match command {
        Command::Move(movement) => clamped(moved(p, movement), lines, gutter),
        _ => p,
    }
}

/// Reads a key code as a command.
pub fn decode_key(key: i32) -> (command: Command)
    ensures
        command == key_command(key),
{
    if key == 'h' as i32 {
        Command::Move(Movement::Left)
    } else if key == 'l' as i32 {
        Command::Move(Movement::Right)
    } else if key == 'k' as i32 {
        Command::Move(Movement::Up)
    } else if key == 'j' as i32 {
        Command::Move(Movement::Down)
    } else if key == 'q' as i32 {
        Command::Quit
    } else {
        Command::Ignored
    }
}

/// The viewer's state: the buffer, the cursor, and the width of the
/// line-number gutter. The gutter is as wide as the buffer's line count has
/// digits, and the cursor is always within bounds.
pub struct ViewportRenderer {
    buffer: TextBuffer,
    cursor: Cursor,
    gutter_width: usize,
}

impl ViewportRenderer {
    #[verifier::type_invariant]
    spec fn well_formed(&self) -> bool {
        &&& self.gutter_width == digit_count(self.buffer@.len())
        &&& 1 <= self.gutter_width <= 20
        &&& in_bounds(self.cursor@, self.buffer@, self.gutter_width as nat)
    }

    /// The buffer on view.
    pub closed spec fn spec_buffer(&self) -> &TextBuffer {
        &self.buffer
    }

    /// The cursor.
    pub closed spec fn spec_cursor(&self) -> Cursor {
        self.cursor
    }

    /// The width of the gutter.
    pub closed spec fn spec_gutter_width(&self) -> usize {
        self.gutter_width
    }

    /// The buffer on view.
    #[verifier::when_used_as_spec(spec_buffer)]
    pub fn buffer(&self) -> (buffer: &TextBuffer)
        ensures
            buffer == self.spec_buffer(),
    {
        &self.buffer
    }

    /// The cursor. It is within bounds.
    #[verifier::when_used_as_spec(spec_cursor)]
    pub fn cursor(&self) -> (cursor: Cursor)
        ensures
            cursor == self.spec_cursor(),
            in_bounds(cursor@, self.buffer()@, self.gutter_width() as nat),
    {
        proof {
            use_type_invariant(self);
        }
        self.cursor
    }

    /// The width of the gutter: the number of digits of the line count.
    #[verifier::when_used_as_spec(spec_gutter_width)]
    pub fn gutter_width(&self) -> (width: usize)
        ensures
            width == self.spec_gutter_width(),
            width == digit_count(self.buffer()@.len()),
            1 <= width <= 20,
    {
        proof {
            use_type_invariant(self);
        }
        self.gutter_width
    }

    /// A viewer of `buffer`, with the cursor on the first line, in the first
    /// column after the gutter.
    pub fn new(buffer: TextBuffer) -> (viewer: ViewportRenderer)
        ensures
            *viewer.buffer() == buffer,
            viewer.gutter_width() == digit_count(buffer@.len()),
            viewer.cursor()@ == (Position { row: 0, col: viewer.gutter_width() + 1 }),
    {
        let count = buffer.line_count();
        let gutter_width = num_digits(count);
        let cursor = Cursor { row: 0, col: (gutter_width + 1) as i32 };
        ViewportRenderer { buffer, cursor, gutter_width }
    }

    /// Moves the cursor one step and clamps it.
    pub fn apply_movement(&mut self, movement: Movement)
        requires
            old(self).cursor().can_shift(movement),
        ensures
            final(self).buffer() == old(self).buffer(),
            final(self).gutter_width() == old(self).gutter_width(),
            final(self).cursor()@ == clamped(
                moved(old(self).cursor()@, movement),
                old(self).buffer()@,
                old(self).gutter_width() as nat,
            ),
            in_bounds(
                final(self).cursor()@,
                final(self).buffer()@,
                final(self).gutter_width() as nat,
            ),
    {
        proof {
            use_type_invariant(&*self);
        }
        let mut cursor = self.cursor;
        cursor.shift(movement);
        cursor.clamp(&self.buffer, self.gutter_width);
        self.cursor = cursor;
    }

    /// The frame for a terminal of `height` rows and `width` columns.
    pub fn render(&self, height: usize, width: usize) -> (frame: Frame)
        ensures
            frame.shows(
                self.buffer()@,
                self.cursor()@,
                (Viewport { height, width, gutter_width: self.gutter_width() }),
            ),
    {
        proof {
            use_type_invariant(self);
        }
        let mut cursor = self.cursor;
        print_buffer(&self.buffer, &mut cursor, self.gutter_width, height, width)
    }

    /// One turn of the viewer: takes a key and the terminal's size as it is
    /// now. On `q` nothing changes and the session ends. On any other key
    /// the cursor goes where the key's command leads, and the frame to draw
    /// shows the buffer with the cursor there.
    pub fn handle_key(&mut self, key: i32, height: usize, width: usize) -> (action: Action)
        requires
            key_command(key) matches Command::Move(movement) ==> old(self).cursor().can_shift(
                movement,
            ),
        ensures
            final(self).buffer() == old(self).buffer(),
            final(self).gutter_width() == old(self).gutter_width(),
            final(self).cursor()@ == next_position(
                old(self).cursor()@,
                key_command(key),
                old(self).buffer()@,
                old(self).gutter_width() as nat,
            ),
            in_bounds(
                final(self).cursor()@,
                final(self).buffer()@,
                final(self).gutter_width() as nat,
            ),
            key_command(key) is Quit <==> action is Quit,
            action matches Action::Draw(frame) ==> frame.shows(
                final(self).buffer()@,
                final(self).cursor()@,
                (Viewport { height, width, gutter_width: final(self).gutter_width() }),
            ),
    {
        proof {
            use_type_invariant(&*self);
        }
        match decode_key(key) {
            Command::Quit => Action::Quit,
            Command::Move(movement) => {
                self.apply_movement(movement);
                Action::Draw(self.render(height, width))
            },
            Command::Ignored => Action::Draw(self.render(height, width)),
        }
    }
}

} // verus!
