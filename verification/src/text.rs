//! Building text one character at a time.

use vstd::prelude::*;

verus! {

/// Appends one character to `s` with `String::push`. Afterwards `s` reads as
/// before, followed by `c`. Verus takes this on trust: the standard library
/// documents `push` as appending the given character to the end.
#[verifier::external_body]
pub(crate) fn push_char(s: &mut String, c: char)
    ensures
        final(s)@ == old(s)@.push(c),
{
    s.push(c);
}

} // verus!
