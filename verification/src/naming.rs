//! Canonical identifier casing at the host-language surface.
//!
//! Type names surface in UpperCamelCase, functions, methods and variables in
//! lowerCamelCase.  The conversions depend on the characters of the name
//! alone, so structurally equal names always produce identical identifiers.

use vstd::prelude::*;
use heck::ToLowerCamelCase;
use heck::ToUpperCamelCase;

verus! {

/// The UpperCamelCase image of a name.
pub uninterp spec fn upper_camel_of(s: Seq<char>) -> Seq<char>;

/// The lowerCamelCase image of a name.
pub uninterp spec fn lower_camel_of(s: Seq<char>) -> Seq<char>;

/// The uppercase image of a string.
pub uninterp spec fn upper_of(s: Seq<char>) -> Seq<char>;

/// Relies on heck's `to_upper_camel_case` for `str`: the result depends on
/// the characters alone.
#[verifier::external_body]
pub fn class_name(s: &str) -> (r: String)
    ensures
        r@ == upper_camel_of(s@),
{
    s.to_upper_camel_case()
}

/// Relies on heck's `to_lower_camel_case` for `str`: the result depends on
/// the characters alone.
#[verifier::external_body]
fn to_lower_camel(s: &str) -> (r: String)
    ensures
        r@ == lower_camel_of(s@),
{
    s.to_lower_camel_case()
}

/// Relies on `str::to_uppercase`: the result depends on the characters
/// alone.
#[verifier::external_body]
pub fn uppercase(s: &str) -> (r: String)
    ensures
        r@ == upper_of(s@),
{
    s.to_uppercase()
}

/// The identifier a variable or argument takes at the surface.
pub fn var_name(s: &str) -> (r: String)
    ensures
        r@ == lower_camel_of(s@),
{
    to_lower_camel(s)
}

/// The identifier a function or method takes at the surface.
pub fn fn_name(s: &str) -> (r: String)
    ensures
        r@ == lower_camel_of(s@),
{
    to_lower_camel(s)
}

/// The identifier an enum variant takes at the surface.
pub fn enum_variant_name(s: &str) -> (r: String)
    ensures
        r@ == upper_camel_of(s@),
{
    class_name(s)
}

} // verus!
