//! Re-parsing checks done by the `syn` crate: whether a substituted type
//! expression still reads as a path-shaped type, and whether an annotation
//! string reads as a structured annotation. Each check's outcome is named,
//! and the generation contracts speak of those names exactly.

use vstd::prelude::*;

verus! {

/// Whether a text parses as a path-shaped type expression.
pub uninterp spec fn path_ok(s: Seq<char>) -> bool;

/// Whether a text parses as a structured annotation entry.
pub uninterp spec fn meta_ok(s: Seq<char>) -> bool;

/// Relies on `syn::parse_str::<syn::Path>`: whether the text parses as a
/// path depends on the text alone.
#[verifier::external_body]
pub(crate) fn parses_as_path(s: &str) -> (r: bool)
    ensures
        r == path_ok(s@),
{
    syn::parse_str::<syn::Path>(s).is_ok()
}

/// Relies on `syn::parse_str::<syn::Meta>`: whether the text parses as a
/// structured annotation depends on the text alone.
#[verifier::external_body]
pub(crate) fn parses_as_meta(s: &str) -> (r: bool)
    ensures
        r == meta_ok(s@),
{
    syn::parse_str::<syn::Meta>(s).is_ok()
}

} // verus!
