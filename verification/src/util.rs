use vstd::prelude::*;

use crate::character::spec_is_indent;
use crate::character::spec_is_linebreak;

verus! {

/// Reports whether the referenced code point is a line feed, a carriage
/// return, or a form feed.
pub fn is_ascii_linebreak(ch: &char) -> (b: bool)
    ensures
        b == spec_is_linebreak(*ch),
{
    let u = *ch as u32;
    u == 10 || u == 13 || u == 12
}

/// Reports whether the referenced code point is a space or a horizontal
/// tab.
pub fn is_ascii_indent(ch: &char) -> (b: bool)
    ensures
        b == spec_is_indent(*ch),
{
    let u = *ch as u32;
    u == 32 || u == 9
}

/// Relies on String::push: appends exactly one character at the end.
#[verifier::external_body]
pub(crate) fn push_char(s: &mut String, c: char)
    ensures
        final(s)@ == old(s)@.push(c),
{
    s.push(c);
}

} // verus!
