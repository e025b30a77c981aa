//! `std`'s `String`, where `vstd` is silent.

use vstd::prelude::*;

verus! {

/// `String::push`: the char is appended.
pub assume_specification[ String::push ](text: &mut String, ch: char)
    ensures
        final(text)@ == old(text)@.push(ch),
;

} // verus!
