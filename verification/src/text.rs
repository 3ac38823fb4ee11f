//! What the standard library does with text.

use vstd::prelude::*;

verus! {

/// `String::push`: the character is added at the end.
pub assume_specification[ String::push ](text: &mut String, c: char)
    ensures
        final(text)@ == old(text)@.push(c),
;

/// The `==` of `str`: whether two texts have the same characters.
#[verifier::external_body]
pub(crate) fn text_equal(left: &str, right: &str) -> (equal: bool)
    ensures
        equal == (left@ == right@),
{
    left == right
}

} // verus!
