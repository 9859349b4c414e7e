//! Text operations of the standard library with their meaning stated.
//!
//! Nothing in this file is proved: each function holds one call of a
//! function of `str` or `String`, and says what that call is documented to do.

use vstd::prelude::*;

verus! {

/// `str`'s `==`: whether two texts hold the same characters.
#[verifier::external_body]
pub(crate) fn same_text(a: &str, b: &str) -> (same: bool)
    ensures
        same == (a@ == b@),
{
    a == b
}

/// `String::push_str`: appends `tail` to `text`.
#[verifier::external_body]
pub(crate) fn append_text(text: &mut String, tail: &str)
    ensures
        final(text)@ == old(text)@ + tail@,
{
    text.push_str(tail)
}

/// `String::push`: appends the character `c` to `text`.
#[verifier::external_body]
pub(crate) fn append_char(text: &mut String, c: char)
    ensures
        final(text)@ == old(text)@.push(c),
{
    text.push(c)
}

} // verus!
