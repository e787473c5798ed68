use sealed_generic::pipeline::def_gen;
use sealed_generic::schema::RawField;
use sealed_generic::schema::RawInput;
use sealed_generic::schema::SpecRequest;
use sealed_generic::schema::TypeExpr;
use sealed_generic::seal::permits;

fn s(t: &str) -> String {
    String::from(t)
}

fn sealed_input() -> RawInput {
    RawInput {
        name: s("Basic"),
        visibility: s("pub"),
        type_params: vec![s("T")],
        has_const_param: false,
        lifetimes: vec![],
        fields: vec![RawField { name: s("ty"), ty: TypeExpr::Path { text: s("T") }, borrow: None }],
        requests: vec![
            SpecRequest { concrete: s("i32"), caps: vec![], annots: vec![] },
            SpecRequest {
                concrete: s("i64"),
                caps: vec![s("PartialEq"), s("Eq"), s("Debug")],
                annots: vec![],
            },
        ],
        base_caps: vec![],
        base_annots: vec![],
        sealed: true,
    }
}

#[test]
fn sealed_schema_emits_marker_for_requested_types_only() {
    let out = def_gen(&sealed_input()).unwrap_or_else(|_| panic!("generation failed"));
    let scheme = out.seal.expect("seal scaffolding");
    assert_eq!(scheme.marker, "SealedBasic");
    assert_eq!(scheme.permitted, vec![s("i32"), s("i64")]);
    assert!(permits(&scheme, "i32"));
    assert!(permits(&scheme, "i64"));
    // A type no request names lacks the marker capability: the consuming
    // type checker rejects that instantiation.
    assert!(!permits(&scheme, "String"));
    assert!(!permits(&scheme, "u8"));
}

#[test]
fn unsealed_schema_emits_no_marker() {
    let mut raw = sealed_input();
    raw.sealed = false;
    let out = def_gen(&raw).unwrap_or_else(|_| panic!("generation failed"));
    assert!(out.seal.is_none());
}

#[test]
fn derived_names_follow_pascal_case() {
    let out = def_gen(&sealed_input()).unwrap_or_else(|_| panic!("generation failed"));
    assert_eq!(out.types[0].name, "BasicI32");
    assert_eq!(out.types[1].name, "BasicI64");
    assert_eq!(
        out.types[1].capabilities,
        vec![s("PartialEq"), s("Eq"), s("Debug")]
    );
}
