//! The one string-building primitive the library needs from std.

use vstd::prelude::*;

verus! {

/// Relies on String::push: appends exactly the given character to the
/// end of the string.
#[verifier::external_body]
pub(crate) fn push_char(s: &mut String, c: char)
    ensures
        final(s)@ == old(s)@.push(c),
{
    s.push(c)
}

} // verus!
