//! Case conversion for derived type names, done by the `convert_case` crate.
//! The conversion's result is named `pascal_of`; the name-derivation contracts
//! speak of it exactly.

use convert_case::Case;
use convert_case::Casing;
use vstd::prelude::*;

verus! {

/// The PascalCase form of a text, as `convert_case` computes it.
pub uninterp spec fn pascal_of(s: Seq<char>) -> Seq<char>;

/// Relies on `convert_case::Casing::to_case` with `Case::Pascal`: the
/// conversion is a pure function of the input characters.
#[verifier::external_body]
pub(crate) fn to_pascal(s: &str) -> (r: String)
    ensures
        r@ == pascal_of(s@),
{
    s.to_case(Case::Pascal)
}

} // verus!
