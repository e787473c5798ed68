//! Derived output names: one record name per specialization request, and the
//! seal marker's name for sealed schemas.

use vstd::prelude::*;
use vstd::string::StringExecFns;
use crate::casing::pascal_of;
use crate::casing::to_pascal;

verus! {

/// A generated record's name: the PascalCase schema name followed by the
/// PascalCase form of the concrete type's text.
pub open spec fn derived_name_spec(schema_name: Seq<char>, concrete: Seq<char>) -> Seq<char> {
    pascal_of(schema_name) + pascal_of(concrete)
}

/// The seal marker capability's name, unique to the schema's name.
pub open spec fn seal_marker_spec(schema_name: Seq<char>) -> Seq<char> {
    "Sealed"@ + pascal_of(schema_name)
}

/// Derives the output record name for one request.
pub fn derived_name(schema_name: &str, concrete: &str) -> (r: String)
    ensures
        r@ == derived_name_spec(schema_name@, concrete@),
{
    let a = to_pascal(schema_name);
    let b = to_pascal(concrete);
    a.concat(b.as_str())
}

/// Derives the seal marker capability's name.
pub fn seal_marker_name(schema_name: &str) -> (r: String)
    ensures
        r@ == seal_marker_spec(schema_name@),
{
    let s = String::from_str("Sealed");
    s.concat(to_pascal(schema_name).as_str())
}

} // verus!
