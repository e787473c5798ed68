//! The single fatal error a generation pass can end in. Every failure aborts
//! the whole pass; nothing partial is emitted.

use vstd::prelude::*;

verus! {

/// Why a generation pass was rejected.
pub enum GenError {
    /// The schema declares a const-valued generic parameter.
    ConstParam,
    /// The schema does not declare exactly one type parameter.
    ParamCount { found: usize },
    /// An annotation string does not parse as a structured annotation.
    BadAnnotation { text: String },
    /// Two specialization requests render the same derived type name.
    NameCollision { name: String },
    /// A textual substitution does not re-parse as a type expression.
    BadSubstitution { text: String },
}

} // verus!
