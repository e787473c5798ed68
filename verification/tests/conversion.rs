use sealed_generic::convert::ConversionPair;
use sealed_generic::convert::FieldValue;
use sealed_generic::convert::RecordValue;
use sealed_generic::convert::into_generic;
use sealed_generic::convert::into_specialized;

fn s(t: &str) -> String {
    String::from(t)
}

fn pair() -> ConversionPair {
    ConversionPair {
        specialized: s("BasicI64"),
        schema_name: s("Basic"),
        concrete: s("i64"),
        field_names: vec![s("ty"), s("extra")],
    }
}

fn value() -> RecordValue {
    RecordValue {
        record_name: s("BasicI64"),
        fields: vec![
            FieldValue { name: s("ty"), value: s("1") },
            FieldValue { name: s("extra"), value: s("x") },
        ],
    }
}

#[test]
fn conversion_renames_the_container_only() {
    let p = pair();
    let v = value();
    let g = into_generic(&p, &v);
    assert_eq!(g.record_name, "Basic<i64>");
    assert_eq!(g.fields.len(), 2);
    assert_eq!(g.fields[0].name, "ty");
    assert_eq!(g.fields[0].value, "1");
    assert_eq!(g.fields[1].name, "extra");
    assert_eq!(g.fields[1].value, "x");
}

#[test]
fn round_trip_is_the_identity() {
    let p = pair();
    let v = value();
    let g = into_generic(&p, &v);
    let w = into_specialized(&p, &g);
    assert_eq!(w.record_name, v.record_name);
    assert_eq!(w.fields.len(), v.fields.len());
    for (a, b) in w.fields.iter().zip(v.fields.iter()) {
        assert_eq!(a.name, b.name);
        assert_eq!(a.value, b.value);
    }
}
