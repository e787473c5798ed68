//! The whole generation pass: validate, classify, then serve every
//! specialization request in order — deriving names, substituting field
//! types, merging capability and annotation lists — and emit the conversion
//! pairs and, for a sealed schema, the seal scaffolding. Any failure aborts
//! the pass with a single error; nothing partial is emitted.

use vstd::prelude::*;
use crate::convert::ConversionPair;
use crate::emit::GeneratedType;
use crate::emit::annots_ok_spec;
use crate::emit::field_ty_spec;
use crate::emit::fields_ok_spec;
use crate::emit::generated_ok_spec;
use crate::emit::request_ok_spec;
use crate::emit::specialize;
use crate::emit::specialize_err_spec;
use crate::error::GenError;
use crate::names::derived_name_spec;
use crate::names::seal_marker_name;
use crate::names::seal_marker_spec;
use crate::schema::RawField;
use crate::schema::RawInput;
use crate::schema::SpecRequest;
use crate::schema::TypeSchema;
use crate::schema::descriptor_of;
use crate::schema::FieldDescriptor;
use crate::schema::is_schema_of;
use crate::schema::validate;
use crate::seal::SealScheme;
use crate::seal::permits_spec;
use crate::seal::lemma_seal_excludes;
use crate::subst::substituted_spec;
use crate::syntax::meta_ok;
use crate::syntax::path_ok;
use crate::text::str_eq;

verus! {

/// Everything one pass emits: the generated record descriptors, their
/// conversion pairs, and the seal scaffolding for a sealed schema.
pub struct GenOutput {
    pub types: Vec<GeneratedType>,
    pub conversions: Vec<ConversionPair>,
    pub seal: Option<SealScheme>,
}

/// The schema's shape is acceptable: no const generic parameter, exactly one
/// type parameter.
pub open spec fn shaped_ok(raw: RawInput) -> bool {
    &&& !raw.has_const_param
    &&& raw.type_params@.len() == 1
}

/// The classified field list of a well-shaped input.
pub open spec fn classified_fields(raw: RawInput) -> Seq<FieldDescriptor> {
    raw.fields@.map_values(|f: RawField| descriptor_of(raw.type_params@[0]@, f))
}

/// One request succeeds: every substitution re-parses and every merged
/// annotation parses.
pub open spec fn raw_request_ok(raw: RawInput, req: SpecRequest) -> bool {
    &&& fields_ok_spec(raw.type_params@[0]@, req.concrete@, classified_fields(raw))
    &&& annots_ok_spec(raw.base_annots@ + req.annots@)
}

/// The whole pass succeeds: the shape is acceptable, every request succeeds,
/// and no two requests render the same derived name.
pub open spec fn gen_success(raw: RawInput) -> bool {
    &&& shaped_ok(raw)
    &&& (forall|i: int|
        0 <= i < raw.requests@.len() ==> raw_request_ok(raw, #[trigger] raw.requests@[i]))
    &&& (forall|i: int, j: int|
        #![trigger raw.requests@[i], raw.requests@[j]]
        0 <= i < j < raw.requests@.len() ==> derived_name_spec(
            raw.name@,
            raw.requests@[i].concrete@,
        ) != derived_name_spec(raw.name@, raw.requests@[j].concrete@))
}

/// What one generated record descriptor holds, stated over the input.
pub open spec fn raw_generated_ok(raw: RawInput, req: SpecRequest, g: GeneratedType) -> bool {
    &&& g.name@ == derived_name_spec(raw.name@, req.concrete@)
    &&& g.visibility == raw.visibility
    &&& g.lifetimes@ == raw.lifetimes@
    &&& g.concrete == req.concrete
    &&& g.fields@.len() == raw.fields@.len()
    &&& (forall|i: int|
        0 <= i < raw.fields@.len() ==> {
            &&& (#[trigger] g.fields@[i]).name == raw.fields@[i].name
            &&& g.fields@[i].borrow == raw.fields@[i].borrow
            &&& g.fields@[i].ty_text@ == field_ty_spec(
                raw.type_params@[0]@,
                req.concrete@,
                classified_fields(raw)[i],
            )
        })
    &&& g.capabilities@ == raw.base_caps@ + req.caps@
    &&& g.annotations@ == raw.base_annots@ + req.annots@
}

/// What one conversion pair holds: it belongs to the request's derived name,
/// instantiates the schema at the request's concrete type, and copies the
/// schema's field names in order.
pub open spec fn conversion_ok(raw: RawInput, req: SpecRequest, c: ConversionPair) -> bool {
    &&& c.specialized@ == derived_name_spec(raw.name@, req.concrete@)
    &&& c.schema_name == raw.name
    &&& c.concrete == req.concrete
    &&& c.field_names@.len() == raw.fields@.len()
    &&& (forall|i: int|
        0 <= i < raw.fields@.len() ==> (#[trigger] c.field_names@[i]) == raw.fields@[i].name)
}

/// What the seal scaffolding holds: the marker named after the schema, and
/// the permitted list equal to the requests' concrete types, in order.
pub open spec fn seal_ok(raw: RawInput, s: SealScheme) -> bool {
    &&& s.marker@ == seal_marker_spec(raw.name@)
    &&& s.permitted@ == raw.requests@.map_values(|r: SpecRequest| r.concrete)
}

/// What a successful pass returns.
pub open spec fn gen_ok_spec(raw: RawInput, out: GenOutput) -> bool {
    &&& out.types@.len() == raw.requests@.len()
    &&& (forall|i: int|
        0 <= i < raw.requests@.len() ==> raw_generated_ok(
            raw,
            raw.requests@[i],
            #[trigger] out.types@[i],
        ))
    &&& (forall|i: int, j: int|
        #![trigger out.types@[i], out.types@[j]]
        0 <= i < j < out.types@.len() ==> out.types@[i].name@ != out.types@[j].name@)
    &&& out.conversions@.len() == raw.requests@.len()
    &&& (forall|i: int|
        0 <= i < raw.requests@.len() ==> conversion_ok(
            raw,
            raw.requests@[i],
            #[trigger] out.conversions@[i],
        ))
    &&& (out.seal is Some <==> raw.sealed)
    &&& (out.seal matches Some(s) ==> seal_ok(raw, s))
}

/// What a failed pass returns: each error names the input that caused it.
pub open spec fn gen_err_spec(raw: RawInput, e: GenError) -> bool {
    match e {
        GenError::ConstParam => raw.has_const_param,
        GenError::ParamCount { found } => {
            &&& !raw.has_const_param
            &&& raw.type_params@.len() != 1
            &&& found == raw.type_params@.len()
        },
        GenError::BadSubstitution { text } => {
            &&& shaped_ok(raw)
            &&& exists|i: int, j: int|
                #![trigger raw.requests@[i], raw.fields@[j]]
                0 <= i < raw.requests@.len() && 0 <= j < raw.fields@.len() && classified_fields(
                    raw,
                )[j].class is NestedParametric && !path_ok(
                    substituted_spec(
                        raw.fields@[j].ty.text_spec(),
                        raw.type_params@[0]@,
                        raw.requests@[i].concrete@,
                    ),
                ) && text@ == substituted_spec(
                    raw.fields@[j].ty.text_spec(),
                    raw.type_params@[0]@,
                    raw.requests@[i].concrete@,
                )
        },
        GenError::BadAnnotation { text } => {
            &&& shaped_ok(raw)
            &&& exists|i: int, k: int|
                #![trigger (raw.base_annots@ + raw.requests@[i].annots@)[k]]
                0 <= i < raw.requests@.len() && fields_ok_spec(
                    raw.type_params@[0]@,
                    raw.requests@[i].concrete@,
                    classified_fields(raw),
                ) && 0 <= k < (raw.base_annots@ + raw.requests@[i].annots@).len() && !meta_ok(
                    ((raw.base_annots@ + raw.requests@[i].annots@)[k])@,
                ) && text@ == ((raw.base_annots@ + raw.requests@[i].annots@)[k])@
        },
        GenError::NameCollision { name } => {
            &&& shaped_ok(raw)
            &&& exists|i: int, j: int|
                #![trigger raw.requests@[i], raw.requests@[j]]
                0 <= i < j < raw.requests@.len() && derived_name_spec(
                    raw.name@,
                    raw.requests@[i].concrete@,
                ) == derived_name_spec(raw.name@, raw.requests@[j].concrete@) && name@
                    == derived_name_spec(raw.name@, raw.requests@[j].concrete@)
        },
    }
}

proof fn lemma_request_ok_glue(raw: RawInput, schema: TypeSchema, req: SpecRequest)
    requires
        is_schema_of(raw, schema),
    ensures
        request_ok_spec(schema, req) == raw_request_ok(raw, req),
{
    assert(schema.fields@ == classified_fields(raw));
    assert(schema.param@ == raw.type_params@[0]@);
    assert(schema.base_annots@ + req.annots@ == raw.base_annots@ + req.annots@);
}

proof fn lemma_generated_glue(
    raw: RawInput,
    schema: TypeSchema,
    req: SpecRequest,
    g: GeneratedType,
)
    requires
        is_schema_of(raw, schema),
        generated_ok_spec(schema, req, g),
    ensures
        raw_generated_ok(raw, req, g),
{
    assert(schema.fields@ == classified_fields(raw));
    assert forall|i: int| 0 <= i < raw.fields@.len() implies {
        &&& (#[trigger] g.fields@[i]).name == raw.fields@[i].name
        &&& g.fields@[i].borrow == raw.fields@[i].borrow
        &&& g.fields@[i].ty_text@ == field_ty_spec(
            raw.type_params@[0]@,
            req.concrete@,
            classified_fields(raw)[i],
        )
    } by {
        assert(schema.fields@[i] == descriptor_of(raw.type_params@[0]@, raw.fields@[i]));
    }
}

proof fn lemma_err_glue(raw: RawInput, schema: TypeSchema, i: int, e: GenError)
    requires
        is_schema_of(raw, schema),
        shaped_ok(raw),
        0 <= i < raw.requests@.len(),
        specialize_err_spec(schema, raw.requests@[i], e),
    ensures
        gen_err_spec(raw, e),
{
    let req = raw.requests@[i];
    assert(schema.fields@ == classified_fields(raw));
    match e {
        GenError::BadSubstitution { text } => {
            let j = choose|j: int|
                0 <= j < schema.fields@.len() && (#[trigger] schema.fields@[j]).class
                    is NestedParametric && !path_ok(
                    substituted_spec(schema.fields@[j].ty.text_spec(), schema.param@, req.concrete@),
                ) && text@ == substituted_spec(
                    schema.fields@[j].ty.text_spec(),
                    schema.param@,
                    req.concrete@,
                );
            assert(schema.fields@[j] == descriptor_of(raw.type_params@[0]@, raw.fields@[j]));
            assert(schema.fields@[j].ty == raw.fields@[j].ty);
            assert(schema.param@ == raw.type_params@[0]@);
            assert(0 <= i < raw.requests@.len() && 0 <= j < raw.fields@.len() && classified_fields(
                raw,
            )[j].class is NestedParametric && !path_ok(
                substituted_spec(
                    raw.fields@[j].ty.text_spec(),
                    raw.type_params@[0]@,
                    raw.requests@[i].concrete@,
                ),
            ) && text@ == substituted_spec(
                raw.fields@[j].ty.text_spec(),
                raw.type_params@[0]@,
                raw.requests@[i].concrete@,
            ));
        },
        GenError::BadAnnotation { text } => {
            let k = choose|k: int|
                0 <= k < (schema.base_annots@ + req.annots@).len() && !meta_ok(
                    (#[trigger] (schema.base_annots@ + req.annots@)[k])@,
                ) && text@ == ((schema.base_annots@ + req.annots@)[k])@;
            assert(schema.base_annots@ + req.annots@ == raw.base_annots@ + req.annots@);
            assert(schema.param@ == raw.type_params@[0]@);
            assert(0 <= i < raw.requests@.len() && fields_ok_spec(
                raw.type_params@[0]@,
                raw.requests@[i].concrete@,
                classified_fields(raw),
            ) && 0 <= k < (raw.base_annots@ + raw.requests@[i].annots@).len() && !meta_ok(
                ((raw.base_annots@ + raw.requests@[i].annots@)[k])@,
            ) && text@ == ((raw.base_annots@ + raw.requests@[i].annots@)[k])@);
        },
        _ => {
            assert(false);
        },
    }
}

/// Runs the whole generation pass over one decoded declaration. Succeeds
/// exactly when the shape is acceptable, every request's substitutions and
/// annotations parse, and all derived names are distinct; any failure aborts
/// the pass with the error that names its cause.
pub fn def_gen(raw: &RawInput) -> (r: Result<GenOutput, GenError>)
    ensures
        r is Ok <==> gen_success(*raw),
        r matches Ok(out) ==> gen_ok_spec(*raw, out),
        r matches Err(e) ==> gen_err_spec(*raw, e),
{
    let schema = match validate(raw) {
        Ok(s) => s,
        Err(e) => {
            return Err(e);
        },
    };
    let mut types: Vec<GeneratedType> = Vec::new();
    let mut i: usize = 0;
    while i < raw.requests.len()
        invariant
            is_schema_of(*raw, schema),
            shaped_ok(*raw),
            0 <= i <= raw.requests@.len(),
            types@.len() == i,
            forall|k: int|
                0 <= k < i ==> raw_generated_ok(
                    *raw,
                    raw.requests@[k],
                    #[trigger] types@[k],
                ),
            forall|k: int| 0 <= k < i ==> raw_request_ok(*raw, #[trigger] raw.requests@[k]),
            forall|k: int, l: int|
                #![trigger types@[k], types@[l]]
                0 <= k < l < i ==> types@[k].name@ != types@[l].name@,
        decreases raw.requests@.len() - i,
    {
        let g = match specialize(&schema, &raw.requests[i]) {
            Ok(g) => g,
            Err(e) => {
                proof {
                    lemma_err_glue(*raw, schema, i as int, e);
                    lemma_request_ok_glue(*raw, schema, raw.requests@[i as int]);
                    assert(!raw_request_ok(*raw, raw.requests@[i as int]));
                }
                return Err(e);
            },
        };
        proof {
            lemma_generated_glue(*raw, schema, raw.requests@[i as int], g);
            lemma_request_ok_glue(*raw, schema, raw.requests@[i as int]);
        }
        let mut j: usize = 0;
        while j < types.len()
            invariant
                shaped_ok(*raw),
                types@.len() == i,
                i < raw.requests@.len(),
                0 <= j <= i,
                g.name@ == derived_name_spec(raw.name@, raw.requests@[i as int].concrete@),
                forall|k: int|
                    0 <= k < i ==> raw_generated_ok(
                        *raw,
                        raw.requests@[k],
                        #[trigger] types@[k],
                    ),
                forall|k: int| 0 <= k < j ==> (#[trigger] types@[k]).name@ != g.name@,
            decreases types@.len() - j,
        {
            if str_eq(types[j].name.as_str(), g.name.as_str()) {
                proof {
                    assert(types@[j as int].name@ == derived_name_spec(
                        raw.name@,
                        raw.requests@[j as int].concrete@,
                    ));
                    assert(derived_name_spec(raw.name@, raw.requests@[j as int].concrete@)
                        == derived_name_spec(raw.name@, raw.requests@[i as int].concrete@));
                    assert(exists|a: int, b: int|
                        #![trigger raw.requests@[a], raw.requests@[b]]
                        0 <= a < b < raw.requests@.len() && derived_name_spec(
                            raw.name@,
                            raw.requests@[a].concrete@,
                        ) == derived_name_spec(raw.name@, raw.requests@[b].concrete@) && g.name@
                            == derived_name_spec(raw.name@, raw.requests@[b].concrete@)) by {
                        assert((j as int) < (i as int) && (i as int) < raw.requests@.len());
                    }
                }
                return Err(GenError::NameCollision { name: g.name });
            }
            j = j + 1;
        }
        types.push(g);
        i = i + 1;
    }
    let mut conversions: Vec<ConversionPair> = Vec::new();
    let mut t: usize = 0;
    while t < types.len()
        invariant
            is_schema_of(*raw, schema),
            types@.len() == raw.requests@.len(),
            forall|k: int|
                0 <= k < types@.len() ==> raw_generated_ok(
                    *raw,
                    raw.requests@[k],
                    #[trigger] types@[k],
                ),
            0 <= t <= types@.len(),
            conversions@.len() == t,
            forall|k: int|
                0 <= k < t ==> conversion_ok(
                    *raw,
                    raw.requests@[k],
                    #[trigger] conversions@[k],
                ),
        decreases types@.len() - t,
    {
        let mut field_names: Vec<String> = Vec::new();
        let mut q: usize = 0;
        while q < schema.fields.len()
            invariant
                is_schema_of(*raw, schema),
                0 <= q <= schema.fields@.len(),
                field_names@.len() == q,
                forall|k: int|
                    0 <= k < q ==> (#[trigger] field_names@[k]) == schema.fields@[k].name,
            decreases schema.fields@.len() - q,
        {
            field_names.push(schema.fields[q].name.clone());
            q = q + 1;
        }
        proof {
            assert(schema.fields@ == classified_fields(*raw));
            assert forall|k: int| 0 <= k < raw.fields@.len() implies (#[trigger] field_names@[k])
                == raw.fields@[k].name by {
                assert(schema.fields@[k] == descriptor_of(raw.type_params@[0]@, raw.fields@[k]));
            }
        }
        conversions.push(
            ConversionPair {
                specialized: types[t].name.clone(),
                schema_name: schema.name.clone(),
                concrete: types[t].concrete.clone(),
                field_names,
            },
        );
        t = t + 1;
    }
    let seal: Option<SealScheme> = if raw.sealed {
        let mut permitted: Vec<String> = Vec::new();
        let mut p: usize = 0;
        while p < raw.requests.len()
            invariant
                0 <= p <= raw.requests@.len(),
                permitted@ == raw.requests@.subrange(0, p as int).map_values(
                    |r: SpecRequest| r.concrete,
                ),
            decreases raw.requests@.len() - p,
        {
            permitted.push(raw.requests[p].concrete.clone());
            proof {
                assert(permitted@ =~= raw.requests@.subrange(0, p + 1).map_values(
                    |r: SpecRequest| r.concrete,
                ));
            }
            p = p + 1;
        }
        proof {
            assert(raw.requests@.subrange(0, raw.requests@.len() as int) =~= raw.requests@);
        }
        Some(SealScheme { marker: seal_marker_name(schema.name.as_str()), permitted })
    } else {
        None
    };
    let out = GenOutput { types, conversions, seal };
    proof {
        assert forall|k: int, l: int|
            #![trigger raw.requests@[k], raw.requests@[l]]
            0 <= k < l < raw.requests@.len() implies derived_name_spec(
            raw.name@,
            raw.requests@[k].concrete@,
        ) != derived_name_spec(raw.name@, raw.requests@[l].concrete@) by {
            assert(out.types@[k].name@ == derived_name_spec(raw.name@, raw.requests@[k].concrete@));
            assert(out.types@[l].name@ == derived_name_spec(raw.name@, raw.requests@[l].concrete@));
        }
    }
    Ok(out)
}

/// Law: a successful pass never yields two records with the same derived
/// name; colliding requests fail instead.
pub proof fn lemma_name_uniqueness(raw: RawInput, out: GenOutput, i: int, j: int)
    requires
        gen_ok_spec(raw, out),
        0 <= i < j < out.types@.len(),
    ensures
        out.types@[i].name@ != out.types@[j].name@,
{
}

/// Law: every generated record keeps the schema's field names, in order.
pub proof fn lemma_output_field_names(raw: RawInput, out: GenOutput, i: int)
    requires
        gen_ok_spec(raw, out),
        0 <= i < out.types@.len(),
    ensures
        out.types@[i].fields@.len() == raw.fields@.len(),
        forall|k: int|
            0 <= k < raw.fields@.len() ==> (#[trigger] out.types@[i].fields@[k]).name
                == raw.fields@[k].name,
{
}

/// Law: a sealed schema's marker covers exactly the requested concrete
/// types; instantiating the schema at any other type is rejected by the
/// consuming type checker through the marker bound.
pub proof fn lemma_sealing(raw: RawInput, out: GenOutput, s: SealScheme, ty: Seq<char>)
    requires
        gen_ok_spec(raw, out),
        out.seal == Some(s),
        forall|i: int| 0 <= i < raw.requests@.len() ==> (#[trigger] raw.requests@[i]).concrete@ != ty,
    ensures
        !permits_spec(s, ty),
{
    assert forall|i: int| 0 <= i < s.permitted@.len() implies (#[trigger] s.permitted@[i])@ != ty by {
        assert(s.permitted@[i] == raw.requests@[i].concrete);
    }
    lemma_seal_excludes(s, ty);
}

} // verus!
