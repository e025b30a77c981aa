//! The rope that holds the text: `ropey`'s `Rope` and `RopeSlice`.

use crate::lines::split_lines;
use ropey::Rope;
use ropey::RopeSlice;
use vstd::prelude::*;
use vstd::utf8::*;

verus! {

/// `ropey::Rope`. Nothing is seen of what is inside: what a rope holds is
/// told by `rope_text`.
#[verifier::external_type_specification]
#[verifier::external_body]
pub struct ExRope(Rope);

/// `ropey::RopeSlice`. What a slice spans is told by `slice_chars`.
#[verifier::external_type_specification]
#[verifier::external_body]
pub struct ExRopeSlice<'a>(RopeSlice<'a>);

/// `std::io::Error`, which `Rope::from_reader` fails with. Nothing is said
/// of what it holds.
#[verifier::external_type_specification]
#[verifier::external_body]
pub struct ExIoError(std::io::Error);

/// The text that a rope holds, char by char.
pub uninterp spec fn rope_text(rope: Rope) -> Seq<char>;

/// The chars that a slice of a rope spans.
pub uninterp spec fn slice_chars(slice: RopeSlice) -> Seq<char>;

/// `Rope::from_reader`, reading from bytes in memory. Such a reader never
/// fails, so the call fails exactly when the bytes are not UTF-8, and
/// otherwise the rope holds the text that they encode.
#[verifier::external_body]
pub(crate) fn rope_from_reader(source: &[u8]) -> (res: Result<Rope, std::io::Error>)
    ensures
        res is Ok <==> valid_utf8(source@),
        res matches Ok(rope) ==> rope_text(rope) == decode_utf8(source@),
{
    Rope::from_reader(source)
}

/// `Rope::len_lines`: the number of lines of the text, which is the number
/// of its line breaks and one.
pub assume_specification[ Rope::len_lines ](rope: &Rope) -> (n: usize)
    ensures
        n == split_lines(rope_text(*rope)).len(),
;

/// `Rope::line`: the slice that spans one line, line break included. It
/// panics where the index is no line's.
pub assume_specification<'a>[ Rope::line ](rope: &'a Rope, line_idx: usize) -> (line:
    RopeSlice<'a>)
    requires
        line_idx < split_lines(rope_text(*rope)).len(),
    ensures
        slice_chars(line) == split_lines(rope_text(*rope))[line_idx as int],
;

/// `RopeSlice::len_chars`: the number of chars of the slice.
pub assume_specification<'a>[ RopeSlice::<'a>::len_chars ](slice: &RopeSlice<'a>) -> (n: usize)
    ensures
        n == slice_chars(*slice).len(),
;

/// `RopeSlice::char`: the char at an index. It panics where the index is
/// past the last char.
pub assume_specification<'a>[ RopeSlice::<'a>::char ](slice: &RopeSlice<'a>, char_idx: usize) -> (c:
    char)
    requires
        char_idx < slice_chars(*slice).len(),
    ensures
        c == slice_chars(*slice)[char_idx as int],
;

/// `RopeSlice::slice` with a range that starts at the slice's first char:
/// the first `end` chars. It panics where `end` is more than the slice has.
#[verifier::external_body]
pub(crate) fn slice_prefix<'a>(slice: &RopeSlice<'a>, end: usize) -> (prefix: RopeSlice<'a>)
    requires
        end <= slice_chars(*slice).len(),
    ensures
        slice_chars(prefix) == slice_chars(*slice).take(end as int),
{
    slice.slice(..end)
}

/// `String::from` for a `RopeSlice`: a string of the slice's chars.
#[verifier::external_body]
pub(crate) fn slice_to_string(slice: RopeSlice) -> (text: String)
    ensures
        text@ == slice_chars(slice),
{
    String::from(slice)
}

} // verus!
