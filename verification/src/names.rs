//! Identifier rendering helpers shared by the generator.

use vstd::prelude::*;

verus! {

/// The lower snake case rendering of an identifier: word boundaries become
/// underscores, upper case letters become lower case. The exact character
/// transformation is that of the snake case converter relied on below; it
/// is a function of the input characters alone.
pub uninterp spec fn snake_case_of(s: Seq<char>) -> Seq<char>;

/// Relies on heck's `ToSnakeCase::to_snake_case` for `str`: the result is
/// computed from the characters of the input alone.
#[verifier::external_body]
pub(crate) fn to_snake_case(s: &String) -> (r: String)
    ensures
        r@ == snake_case_of(s@),
{
    heck::ToSnakeCase::to_snake_case(s.as_str())
}

/// True exactly when `s` reads as `lit`.
pub fn string_is(s: &String, lit: &str) -> (r: bool)
    ensures
        r == (s@ == lit@),
{
    *s == lit.to_owned()
}

} // verus!
