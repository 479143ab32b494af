//! Small executable helpers for strings: building a `String` from a
//! vector of characters, and character-exact string comparison.
use vstd::prelude::*;
use vstd::string::*;

verus! {

/// Relies on `String: FromIterator<char>`: collecting an iterator of
/// characters yields a string of exactly those characters, in order.
#[verifier::external_body]
pub(crate) fn chars_to_string(v: &Vec<char>) -> (r: String)
    ensures
        r@ == v@,
{
    v.iter().collect()
}

/// Character-for-character equality of two string slices.
pub fn str_eq(a: &str, b: &str) -> (r: bool)
    ensures
        r == (a@ == b@),
{
    let sa = String::from_str(a);
    let sb = String::from_str(b);
    sa == sb
}

} // verus!
