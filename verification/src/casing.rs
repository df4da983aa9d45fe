//! Symbolic names are derived from declared field names by case
//! normalization, done by the `convert_case` crate.

use vstd::prelude::*;

use convert_case::{Case, Casing};

verus! {

/// What `convert_case` turns a string into under the UpperCamel convention.
pub uninterp spec fn upper_camel_of(s: Seq<char>) -> Seq<char>;

/// Relies on convert_case's `Casing::to_case` with `Case::UpperCamel`: the
/// result is a pure function of the input characters.
#[verifier::external_body]
pub fn to_upper_camel(s: &String) -> (r: String)
    ensures
        r@ == upper_camel_of(s@),
{
    s.as_str().to_case(Case::UpperCamel)
}

} // verus!
