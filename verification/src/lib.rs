//! Specializes a generic record schema, one type parameter, into a family of
//! concrete record descriptors: one per requested substitution, each with
//! merged capability and annotation lists, a pair of field-wise conversion
//! operations, and, for sealed schemas, a marker capability restricted to
//! exactly the requested types.

pub mod casing;
pub mod convert;
pub mod emit;
pub mod error;
pub mod names;
pub mod pipeline;
pub mod schema;
pub mod seal;
pub mod subst;
pub mod syntax;
pub mod text;

pub use crate::pipeline::def_gen;
