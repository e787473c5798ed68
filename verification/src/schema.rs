//! The decoded input declaration, the validated schema, and the field
//! classifier. Classification relates each field's type expression to the
//! schema's one type parameter and is computed once, before any request is
//! served.

use vstd::prelude::*;
use crate::error::GenError;
use crate::text::clone_strings;
use crate::text::contains_char;
use crate::text::str_eq;

verus! {

/// A field's type expression, as the declaration decoder hands it over:
/// either path-shaped, or some other shape (a fixed-size array, a tuple),
/// which the classifier does not see through.
pub enum TypeExpr {
    Path { text: String },
    Other { text: String },
}

impl TypeExpr {
    /// The raw text of the expression.
    pub open spec fn text_spec(self) -> Seq<char> {
        match self {
            TypeExpr::Path { text } => text@,
            TypeExpr::Other { text } => text@,
        }
    }

    /// The raw text of the expression.
    pub fn text(&self) -> (r: &str)
        ensures
            r@ == self.text_spec(),
    {
        match self {
            TypeExpr::Path { text } => text.as_str(),
            TypeExpr::Other { text } => text.as_str(),
        }
    }

    /// A copy equal to `self`.
    pub fn duplicate(&self) -> (r: TypeExpr)
        ensures
            r == *self,
    {
        match self {
            TypeExpr::Path { text } => TypeExpr::Path { text: text.clone() },
            TypeExpr::Other { text } => TypeExpr::Other { text: text.clone() },
        }
    }
}

/// How a field's type expression relates to the schema's type parameter.
#[derive(Clone, Copy, PartialEq, Eq, Structural, Debug)]
pub enum Classification {
    /// The expression is exactly the type parameter.
    Direct,
    /// The expression is a parameterized container; its text serves as a
    /// substitution template.
    NestedParametric,
    /// The expression is copied verbatim into every output.
    Opaque,
}

/// One field as the declaration decoder hands it over: name, type
/// expression, and the borrow's lifetime tag if the field is a reference.
pub struct RawField {
    pub name: String,
    pub ty: TypeExpr,
    pub borrow: Option<String>,
}

/// One specialization request: a concrete type's text plus extra capability
/// and annotation lists to merge after the schema's base lists.
pub struct SpecRequest {
    pub concrete: String,
    pub caps: Vec<String>,
    pub annots: Vec<String>,
}

/// The whole decoded declaration, before validation.
pub struct RawInput {
    pub name: String,
    pub visibility: String,
    pub type_params: Vec<String>,
    pub has_const_param: bool,
    pub lifetimes: Vec<String>,
    pub fields: Vec<RawField>,
    pub requests: Vec<SpecRequest>,
    pub base_caps: Vec<String>,
    pub base_annots: Vec<String>,
    pub sealed: bool,
}

/// One field of the validated schema, with its classification computed.
pub struct FieldDescriptor {
    pub name: String,
    pub ty: TypeExpr,
    pub class: Classification,
    pub borrow: Option<String>,
}

/// The validated schema: exactly one type parameter, every field classified.
pub struct TypeSchema {
    pub name: String,
    pub visibility: String,
    pub param: String,
    pub lifetimes: Vec<String>,
    pub fields: Vec<FieldDescriptor>,
    pub base_caps: Vec<String>,
    pub base_annots: Vec<String>,
    pub sealed: bool,
}

/// The classification of a type expression against the parameter `param`:
/// exactly the parameter is direct; a path carrying a generic-argument list
/// is nested-parametric; everything else, non-path shapes included, is
/// opaque.
pub open spec fn classify_spec(param: Seq<char>, ty: TypeExpr) -> Classification {
    match ty {
        TypeExpr::Path { text } => if text@ == param {
            Classification::Direct
        } else if text@.contains('<') {
            Classification::NestedParametric
        } else {
            Classification::Opaque
        },
        TypeExpr::Other { .. } => Classification::Opaque,
    }
}

/// The descriptor the classifier produces for one raw field.
pub open spec fn descriptor_of(param: Seq<char>, f: RawField) -> FieldDescriptor {
    FieldDescriptor { name: f.name, ty: f.ty, class: classify_spec(param, f.ty), borrow: f.borrow }
}

/// What validation produces from a well-shaped input: every part of the
/// declaration carried over unchanged, and every field classified against the
/// one type parameter.
pub open spec fn is_schema_of(raw: RawInput, s: TypeSchema) -> bool {
    &&& s.name == raw.name
    &&& s.visibility == raw.visibility
    &&& s.param == raw.type_params@[0]
    &&& s.lifetimes@ == raw.lifetimes@
    &&& s.fields@ == raw.fields@.map_values(|f: RawField| descriptor_of(raw.type_params@[0]@, f))
    &&& s.base_caps@ == raw.base_caps@
    &&& s.base_annots@ == raw.base_annots@
    &&& s.sealed == raw.sealed
}

/// A copy of an optional borrow tag, equal to the original.
pub fn clone_borrow(b: &Option<String>) -> (r: Option<String>)
    ensures
        r == *b,
{
    match b {
        Some(lt) => Some(lt.clone()),
        None => None,
    }
}

/// Classifies one field against the schema's type parameter.
pub fn classify_field(param: &String, f: &RawField) -> (r: FieldDescriptor)
    ensures
        r == descriptor_of(param@, *f),
{
    let class: Classification = match &f.ty {
        TypeExpr::Path { text } => {
            if str_eq(text.as_str(), param.as_str()) {
                Classification::Direct
            } else if contains_char(text.as_str(), '<') {
                Classification::NestedParametric
            } else {
                Classification::Opaque
            }
        },
        TypeExpr::Other { .. } => Classification::Opaque,
    };
    FieldDescriptor {
        name: f.name.clone(),
        ty: f.ty.duplicate(),
        class,
        borrow: clone_borrow(&f.borrow),
    }
}

/// Validates the decoded declaration: rejects a const generic parameter and
/// any parameter count other than one, and classifies every field.
pub fn validate(raw: &RawInput) -> (r: Result<TypeSchema, GenError>)
    ensures
        raw.has_const_param ==> (r matches Err(e) && e is ConstParam),
        !raw.has_const_param && raw.type_params@.len() != 1 ==> (r matches Err(e) && (e matches
            GenError::ParamCount { found } && found == raw.type_params@.len())),
        !raw.has_const_param && raw.type_params@.len() == 1 ==> (r matches Ok(s) && is_schema_of(
            *raw,
            s,
        )),
{
    if raw.has_const_param {
        return Err(GenError::ConstParam);
    }
    if raw.type_params.len() != 1 {
        return Err(GenError::ParamCount { found: raw.type_params.len() });
    }
    let param: String = raw.type_params[0].clone();
    let mut fields: Vec<FieldDescriptor> = Vec::new();
    let mut i: usize = 0;
    while i < raw.fields.len()
        invariant
            0 <= i <= raw.fields@.len(),
            param@ == raw.type_params@[0]@,
            param == raw.type_params@[0],
            fields@ == raw.fields@.subrange(0, i as int).map_values(
                |f: RawField| descriptor_of(raw.type_params@[0]@, f),
            ),
        decreases raw.fields@.len() - i,
    {
        let fd = classify_field(&param, &raw.fields[i]);
        fields.push(fd);
        proof {
            assert(fields@ =~= raw.fields@.subrange(0, i + 1).map_values(
                |f: RawField| descriptor_of(raw.type_params@[0]@, f),
            ));
        }
        i = i + 1;
    }
    proof {
        assert(raw.fields@.subrange(0, raw.fields@.len() as int) =~= raw.fields@);
    }
    let schema = TypeSchema {
        name: raw.name.clone(),
        visibility: raw.visibility.clone(),
        param,
        lifetimes: clone_strings(&raw.lifetimes),
        fields,
        base_caps: clone_strings(&raw.base_caps),
        base_annots: clone_strings(&raw.base_annots),
        sealed: raw.sealed,
    };
    Ok(schema)
}

} // verus!
