//! The type and capability emitter: assembles, per specialization request,
//! the generated record's field list (substituted or copied per
//! classification), its merged capability list and its merged annotation
//! list, with the schema's visibility and borrow parameters carried over.

use vstd::prelude::*;
use vstd::string::StringExecFns;
use crate::error::GenError;
use crate::names::derived_name;
use crate::names::derived_name_spec;
use crate::schema::Classification;
use crate::schema::FieldDescriptor;
use crate::schema::SpecRequest;
use crate::schema::TypeSchema;
use crate::schema::clone_borrow;
use crate::subst::substitute_checked;
use crate::subst::substituted_spec;
use crate::syntax::meta_ok;
use crate::syntax::parses_as_meta;
use crate::syntax::path_ok;
use crate::text::clone_strings;

verus! {

/// One field of a generated record: the schema field's name and borrow tag,
/// and the output type's text.
pub struct GeneratedField {
    pub name: String,
    pub borrow: Option<String>,
    pub ty_text: String,
}

/// One generated record descriptor, ready to be rendered as a declaration.
pub struct GeneratedType {
    pub name: String,
    pub visibility: String,
    pub lifetimes: Vec<String>,
    pub concrete: String,
    pub fields: Vec<GeneratedField>,
    pub capabilities: Vec<String>,
    pub annotations: Vec<String>,
}

/// The output type text of one field: the concrete type for a direct field,
/// the substituted template for a nested-parametric field, the original text
/// for an opaque field.
pub open spec fn field_ty_spec(param: Seq<char>, concrete: Seq<char>, fd: FieldDescriptor) -> Seq<
    char,
> {
    match fd.class {
        Classification::Direct => concrete,
        Classification::NestedParametric => substituted_spec(fd.ty.text_spec(), param, concrete),
        Classification::Opaque => fd.ty.text_spec(),
    }
}

/// Every nested-parametric field's substituted text re-parses as a path.
pub open spec fn fields_ok_spec(
    param: Seq<char>,
    concrete: Seq<char>,
    fields: Seq<FieldDescriptor>,
) -> bool {
    forall|i: int|
        0 <= i < fields.len() ==> ((#[trigger] fields[i]).class is NestedParametric ==> path_ok(
            substituted_spec(fields[i].ty.text_spec(), param, concrete),
        ))
}

/// Every annotation string parses as a structured annotation.
pub open spec fn annots_ok_spec(annots: Seq<String>) -> bool {
    forall|i: int| 0 <= i < annots.len() ==> meta_ok((#[trigger] annots[i])@)
}

/// A request succeeds exactly when its substitutions and its merged
/// annotation list all parse.
pub open spec fn request_ok_spec(schema: TypeSchema, req: SpecRequest) -> bool {
    &&& fields_ok_spec(schema.param@, req.concrete@, schema.fields@)
    &&& annots_ok_spec(schema.base_annots@ + req.annots@)
}

/// What a successful specialization returns: the derived name; the schema's
/// visibility, borrow parameters, field names, field order and borrow tags
/// unchanged; each field's type per its classification; and the capability
/// and annotation lists merged base-first, order and duplicates preserved.
pub open spec fn generated_ok_spec(schema: TypeSchema, req: SpecRequest, g: GeneratedType) -> bool {
    &&& g.name@ == derived_name_spec(schema.name@, req.concrete@)
    &&& g.visibility == schema.visibility
    &&& g.lifetimes@ == schema.lifetimes@
    &&& g.concrete == req.concrete
    &&& g.fields@.len() == schema.fields@.len()
    &&& (forall|i: int|
        0 <= i < schema.fields@.len() ==> {
            &&& (#[trigger] g.fields@[i]).name == schema.fields@[i].name
            &&& g.fields@[i].borrow == schema.fields@[i].borrow
            &&& g.fields@[i].ty_text@ == field_ty_spec(
                schema.param@,
                req.concrete@,
                schema.fields@[i],
            )
        })
    &&& g.capabilities@ == schema.base_caps@ + req.caps@
    &&& g.annotations@ == schema.base_annots@ + req.annots@
}

/// What a failed specialization returns: the substituted text that does not
/// re-parse, or, with all substitutions fine, the annotation that does not.
pub open spec fn specialize_err_spec(schema: TypeSchema, req: SpecRequest, e: GenError) -> bool {
    match e {
        GenError::BadSubstitution { text } => exists|i: int|
            0 <= i < schema.fields@.len() && (#[trigger] schema.fields@[i]).class
                is NestedParametric && !path_ok(
                substituted_spec(schema.fields@[i].ty.text_spec(), schema.param@, req.concrete@),
            ) && text@ == substituted_spec(
                schema.fields@[i].ty.text_spec(),
                schema.param@,
                req.concrete@,
            ),
        GenError::BadAnnotation { text } => {
            &&& fields_ok_spec(schema.param@, req.concrete@, schema.fields@)
            &&& exists|i: int|
                0 <= i < (schema.base_annots@ + req.annots@).len() && !meta_ok(
                    (#[trigger] (schema.base_annots@ + req.annots@)[i])@,
                ) && text@ == ((schema.base_annots@ + req.annots@)[i])@
        },
        _ => false,
    }
}

/// The base list followed by the request's list, order and duplicates kept.
pub fn merge(base: &Vec<String>, extra: &Vec<String>) -> (r: Vec<String>)
    ensures
        r@ == base@ + extra@,
{
    let mut r = clone_strings(base);
    let mut i: usize = 0;
    while i < extra.len()
        invariant
            0 <= i <= extra@.len(),
            r@ == base@ + extra@.subrange(0, i as int),
        decreases extra@.len() - i,
    {
        r.push(extra[i].clone());
        proof {
            assert(r@ =~= base@ + extra@.subrange(0, i + 1));
        }
        i = i + 1;
    }
    proof {
        assert(base@ + extra@.subrange(0, extra@.len() as int) =~= base@ + extra@);
    }
    r
}

/// Assembles the generated record descriptor for one request, or the fatal
/// error that aborts the pass.
pub fn specialize(schema: &TypeSchema, req: &SpecRequest) -> (r: Result<GeneratedType, GenError>)
    ensures
        request_ok_spec(*schema, *req) <==> r is Ok,
        r matches Ok(g) ==> generated_ok_spec(*schema, *req, g),
        r matches Err(e) ==> specialize_err_spec(*schema, *req, e),
{
    let mut fields: Vec<GeneratedField> = Vec::new();
    let mut i: usize = 0;
    while i < schema.fields.len()
        invariant
            0 <= i <= schema.fields@.len(),
            fields@.len() == i,
            forall|k: int|
                0 <= k < i ==> {
                    &&& (#[trigger] fields@[k]).name == schema.fields@[k].name
                    &&& fields@[k].borrow == schema.fields@[k].borrow
                    &&& fields@[k].ty_text@ == field_ty_spec(
                        schema.param@,
                        req.concrete@,
                        schema.fields@[k],
                    )
                },
            forall|k: int|
                0 <= k < i ==> ((#[trigger] schema.fields@[k]).class is NestedParametric
                    ==> path_ok(
                    substituted_spec(schema.fields@[k].ty.text_spec(), schema.param@, req.concrete@),
                )),
        decreases schema.fields@.len() - i,
    {
        let fd = &schema.fields[i];
        let ty_text: String = match fd.class {
            Classification::Direct => req.concrete.clone(),
            Classification::NestedParametric => {
                match substitute_checked(fd.ty.text(), schema.param.as_str(), req.concrete.as_str()) {
                    Ok(s) => s,
                    Err(e) => {
                        return Err(e);
                    },
                }
            },
            Classification::Opaque => String::from_str(fd.ty.text()),
        };
        fields.push(GeneratedField { name: fd.name.clone(), borrow: clone_borrow(&fd.borrow), ty_text });
        i = i + 1;
    }
    let annotations = merge(&schema.base_annots, &req.annots);
    let mut j: usize = 0;
    while j < annotations.len()
        invariant
            0 <= j <= annotations@.len(),
            annotations@ == schema.base_annots@ + req.annots@,
            fields_ok_spec(schema.param@, req.concrete@, schema.fields@),
            forall|k: int| 0 <= k < j ==> meta_ok((#[trigger] annotations@[k])@),
        decreases annotations@.len() - j,
    {
        if !parses_as_meta(annotations[j].as_str()) {
            return Err(GenError::BadAnnotation { text: annotations[j].clone() });
        }
        j = j + 1;
    }
    let capabilities = merge(&schema.base_caps, &req.caps);
    let name = derived_name(schema.name.as_str(), req.concrete.as_str());
    Ok(
        GeneratedType {
            name,
            visibility: schema.visibility.clone(),
            lifetimes: clone_strings(&schema.lifetimes),
            concrete: req.concrete.clone(),
            fields,
            capabilities,
            annotations,
        },
    )
}

/// Law: a generated record's field names and order equal the schema's.
pub proof fn lemma_field_names_preserved(schema: TypeSchema, req: SpecRequest, g: GeneratedType)
    requires
        generated_ok_spec(schema, req, g),
    ensures
        g.fields@.len() == schema.fields@.len(),
        forall|i: int|
            0 <= i < schema.fields@.len() ==> (#[trigger] g.fields@[i]).name
                == schema.fields@[i].name,
{
}

/// Law: a generated record's capability list is the schema's base list
/// followed by the request's list, order and duplicates preserved.
pub proof fn lemma_capability_merge(schema: TypeSchema, req: SpecRequest, g: GeneratedType)
    requires
        generated_ok_spec(schema, req, g),
    ensures
        g.capabilities@ == schema.base_caps@ + req.caps@,
        g.capabilities@.len() == schema.base_caps@.len() + req.caps@.len(),
        forall|i: int|
            0 <= i < schema.base_caps@.len() ==> g.capabilities@[i] == schema.base_caps@[i],
        forall|i: int|
            0 <= i < req.caps@.len() ==> g.capabilities@[schema.base_caps@.len() + i]
                == req.caps@[i],
{
}

} // verus!
