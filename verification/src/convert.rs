//! The conversion generator. Each generated record comes with two total,
//! field-wise identity conversions between it and the schema instantiated at
//! its concrete type. Record values are modelled as ordered lists of named
//! field values; both conversions copy every field by name, unchanged, so the
//! round trip is the identity.

use vstd::prelude::*;
use vstd::string::StringExecFns;

verus! {

/// One field of a record value: the field's name and its payload text.
pub struct FieldValue {
    pub name: String,
    pub value: String,
}

/// A record value tagged with the name of the record type it inhabits.
pub struct RecordValue {
    pub record_name: String,
    pub fields: Vec<FieldValue>,
}

/// The descriptor of one conversion pair: which specialized record it
/// belongs to, the schema and concrete type it instantiates, and the field
/// names both directions copy.
pub struct ConversionPair {
    pub specialized: String,
    pub schema_name: String,
    pub concrete: String,
    pub field_names: Vec<String>,
}

/// The textual form of the generic instantiation the pair converts to.
pub open spec fn generic_name_spec(pair: ConversionPair) -> Seq<char> {
    pair.schema_name@ + seq!['<'] + pair.concrete@ + seq!['>']
}

/// A value inhabits the pair's field shape: same field names, same order.
pub open spec fn fields_match_spec(pair: ConversionPair, v: RecordValue) -> bool {
    &&& v.fields@.len() == pair.field_names@.len()
    &&& forall|i: int|
        0 <= i < v.fields@.len() ==> (#[trigger] v.fields@[i]).name == pair.field_names@[i]
}

/// Converts a specialized value into the generic instantiation: every field
/// copied by name, unchanged; only the container is renamed.
pub fn into_generic(pair: &ConversionPair, v: &RecordValue) -> (r: RecordValue)
    requires
        fields_match_spec(*pair, *v),
        v.record_name@ == pair.specialized@,
    ensures
        r.fields@ == v.fields@,
        r.record_name@ == generic_name_spec(*pair),
        fields_match_spec(*pair, r),
{
    proof {
        reveal_strlit("<");
        reveal_strlit(">");
    }
    let mut record_name = pair.schema_name.clone();
    record_name.append("<");
    record_name.append(pair.concrete.as_str());
    record_name.append(">");
    proof {
        assert("<"@ =~= seq!['<']);
        assert(">"@ =~= seq!['>']);
    }
    RecordValue { record_name, fields: copy_fields(&v.fields) }
}

/// Converts a generic-instantiation value back into the specialized record:
/// the inverse field-wise copy.
pub fn into_specialized(pair: &ConversionPair, v: &RecordValue) -> (r: RecordValue)
    requires
        fields_match_spec(*pair, *v),
        v.record_name@ == generic_name_spec(*pair),
    ensures
        r.fields@ == v.fields@,
        r.record_name == pair.specialized,
        fields_match_spec(*pair, r),
{
    RecordValue { record_name: pair.specialized.clone(), fields: copy_fields(&v.fields) }
}

/// A field-by-field copy, equal to the original.
fn copy_fields(fields: &Vec<FieldValue>) -> (r: Vec<FieldValue>)
    ensures
        r@ == fields@,
{
    let mut r: Vec<FieldValue> = Vec::new();
    let mut i: usize = 0;
    while i < fields.len()
        invariant
            0 <= i <= fields@.len(),
            r@ == fields@.subrange(0, i as int),
        decreases fields@.len() - i,
    {
        r.push(FieldValue { name: fields[i].name.clone(), value: fields[i].value.clone() });
        proof {
            assert(r@ =~= fields@.subrange(0, i + 1));
        }
        i = i + 1;
    }
    proof {
        assert(fields@.subrange(0, fields@.len() as int) =~= fields@);
    }
    r
}

/// Law: converting a specialized value into the generic instantiation and
/// back yields a value equal, field by field, to the original, with its
/// type name restored.
pub proof fn lemma_round_trip(pair: ConversionPair, v: RecordValue, g: RecordValue, w: RecordValue)
    requires
        fields_match_spec(pair, v),
        v.record_name == pair.specialized,
        g.fields@ == v.fields@,
        g.record_name@ == generic_name_spec(pair),
        w.fields@ == g.fields@,
        w.record_name == pair.specialized,
    ensures
        w.fields@ == v.fields@,
        w.record_name == v.record_name,
{
}

} // verus!
