//! Building strings one character at a time.

use vstd::prelude::*;

verus! {

/// Appends one character to a string. Stands for `String::push`, which adds
/// the character at the end and leaves what was there untouched.
#[verifier::external_body]
pub(crate) fn push_char(s: &mut String, c: char)
    ensures
        final(s)@ == old(s)@.push(c),
{
    s.push(c);
}

} // verus!
