//! Lower-casing the first letter of a name.

use vstd::prelude::*;

verus! {

/// What `char::to_lowercase` yields for `c`.
pub uninterp spec fn char_lowercase(c: char) -> Seq<char>;

/// `char::to_lowercase`, collected into a `String`.  The claims are those of
/// its documentation: the lowercase mapping is one or more characters; an
/// ASCII upper-case letter maps to the corresponding lower-case letter, and
/// any other ASCII character has no lowercase mapping, so it maps to itself.
/// What it yields outside ASCII is left to `char_lowercase`.
#[verifier::external_body]
pub(crate) fn char_to_lowercase(c: char) -> (r: String)
    ensures
        r@ == char_lowercase(c),
        r@.len() >= 1,
        'A' <= c <= 'Z' ==> r@ == seq![((c as u32) + 32) as char],
        (c as u32) < 128 && !('A' <= c <= 'Z') ==> r@ == seq![c],
{
    c.to_lowercase().collect()
}

/// `s` with its first character lower-cased.
pub open spec fn lower_first(s: Seq<char>) -> Seq<char>
    recommends
        s.len() > 0,
{
    char_lowercase(s[0]) + s.subrange(1, s.len() as int)
}

} // verus!
