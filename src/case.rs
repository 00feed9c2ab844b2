//! Identifier case conversions, done by the `heck` crate.

use vstd::prelude::*;

verus! {

/// The snake_case form that `heck` gives of a text.
pub uninterp spec fn snake_case_of(s: Seq<char>) -> Seq<char>;

/// The lowerCamelCase form that `heck` gives of a text.
pub uninterp spec fn lower_camel_case_of(s: Seq<char>) -> Seq<char>;

/// Relies on `heck::ToSnakeCase::to_snake_case` for `str`: its result
/// depends on the text alone.
#[verifier::external_body]
pub(crate) fn to_snake_case(s: &String) -> (r: String)
    ensures
        r@ == snake_case_of(s@),
{
    heck::ToSnakeCase::to_snake_case(s.as_str())
}

/// Relies on `heck::ToLowerCamelCase::to_lower_camel_case` for `str`: its
/// result depends on the text alone.
#[verifier::external_body]
pub(crate) fn to_lower_camel_case(s: &String) -> (r: String)
    ensures
        r@ == lower_camel_case_of(s@),
{
    heck::ToLowerCamelCase::to_lower_camel_case(s.as_str())
}

} // verus!
