//! The few operations on characters and strings that are taken from the
//! standard library on trust.

use vstd::prelude::*;

verus! {

/// Whether the standard library counts `c` among the numeric characters.
pub uninterp spec fn char_is_numeric(c: char) -> bool;

/// `char::is_numeric`: the result is the standard library's verdict on `c`,
/// which depends on `c` alone.
#[verifier::external_body]
pub(crate) fn is_numeric(c: char) -> (r: bool)
    ensures
        r == char_is_numeric(c),
{
    c.is_numeric()
}

/// `String::from_iter` over a slice of characters: the string holds exactly
/// those characters, in order.
#[verifier::external_body]
pub(crate) fn string_from_chars(v: &[char]) -> (r: String)
    ensures
        r@ == v@,
{
    String::from_iter(v)
}

/// The lower-case form that the standard library gives to a text.
pub uninterp spec fn lowercase_of(s: Seq<char>) -> Seq<char>;

/// `str::to_lowercase`: the result is the standard library's lower-case form
/// of `s`, which depends on the characters of `s` alone.
#[verifier::external_body]
pub(crate) fn to_lowercase(s: &str) -> (r: String)
    ensures
        r@ == lowercase_of(s@),
{
    s.to_lowercase()
}

} // verus!
