//! The sealing emitter. For a sealed schema it synthesizes one marker
//! capability, named after the schema, to stand as a bound on the schema's
//! type parameter, and implements it for exactly the concrete types the
//! specialization requests name — so the consuming type checker rejects any
//! other instantiation.

use vstd::prelude::*;
use crate::text::str_eq;

verus! {

/// The seal scaffolding: the marker capability's name and the complete list
/// of concrete types it is implemented for.
pub struct SealScheme {
    pub marker: String,
    pub permitted: Vec<String>,
}

/// Whether the scheme covers a concrete type's text.
pub open spec fn permits_spec(s: SealScheme, ty: Seq<char>) -> bool {
    exists|i: int| 0 <= i < s.permitted@.len() && (#[trigger] s.permitted@[i])@ == ty
}

/// Whether the marker capability is implemented for the given type.
pub fn permits(s: &SealScheme, ty: &str) -> (r: bool)
    ensures
        r == permits_spec(*s, ty@),
{
    let mut i: usize = 0;
    while i < s.permitted.len()
        invariant
            0 <= i <= s.permitted@.len(),
            forall|k: int| 0 <= k < i ==> (#[trigger] s.permitted@[k])@ != ty@,
        decreases s.permitted@.len() - i,
    {
        if str_eq(s.permitted[i].as_str(), ty) {
            return true;
        }
        i = i + 1;
    }
    false
}

/// Law: a sealed schema's marker covers no type outside the requested ones;
/// instantiating the schema at such a type fails the marker bound downstream.
pub proof fn lemma_seal_excludes(s: SealScheme, ty: Seq<char>)
    requires
        forall|i: int| 0 <= i < s.permitted@.len() ==> (#[trigger] s.permitted@[i])@ != ty,
    ensures
        !permits_spec(s, ty),
{
}

} // verus!
