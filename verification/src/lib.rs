//! A read-only viewer for text files on a character-grid terminal.
//!
//! The text is held in a rope and seen as a sequence of lines. A cursor moves
//! over it, one step per key, and is clamped back into the text and out of
//! the line-number gutter after every step. A frame is the part of the text
//! that a terminal of a given size shows: one row per line from the first
//! line on, each with its right-aligned line number.
//!
//! Nothing here touches a terminal or a file: callers hand in bytes, keys and
//! the terminal's size, and get back the frame to draw.

pub mod digits;
pub mod lines;
pub mod trusted;
pub mod buffer;
pub mod cursor;
pub mod frame;
pub mod viewer;
