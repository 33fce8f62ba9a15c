//! Text helpers with the behaviour of the standard string operations they stand for.

use vstd::prelude::*;

verus! {

/// Appends a character to a string (`String::push`).
///
/// Claims what the documentation of `String::push` states: the character is
/// added at the end and nothing else changes.
#[verifier::external_body]
pub(crate) fn push_char(s: &mut String, c: char)
    ensures
        final(s)@ == old(s)@.push(c),
{
    s.push(c)
}

} // verus!
