use sealed_generic::error::GenError;
use sealed_generic::pipeline::def_gen;
use sealed_generic::pipeline::GenOutput;
use sealed_generic::schema::RawField;
use sealed_generic::schema::RawInput;
use sealed_generic::schema::SpecRequest;
use sealed_generic::schema::TypeExpr;

fn s(t: &str) -> String {
    String::from(t)
}

fn path(t: &str) -> TypeExpr {
    TypeExpr::Path { text: s(t) }
}

fn field(name: &str, ty: TypeExpr) -> RawField {
    RawField { name: s(name), ty, borrow: None }
}

fn request(concrete: &str) -> SpecRequest {
    SpecRequest { concrete: s(concrete), caps: vec![], annots: vec![] }
}

fn input(name: &str, fields: Vec<RawField>, requests: Vec<SpecRequest>) -> RawInput {
    RawInput {
        name: s(name),
        visibility: s("pub"),
        type_params: vec![s("T")],
        has_const_param: false,
        lifetimes: vec![],
        fields,
        requests,
        base_caps: vec![],
        base_annots: vec![],
        sealed: false,
    }
}

fn generate(raw: &RawInput) -> GenOutput {
    match def_gen(raw) {
        Ok(out) => out,
        Err(_) => panic!("generation failed"),
    }
}

#[test]
fn lifetime_smoke() {
    let mut raw = input(
        "BasicLt",
        vec![RawField { name: s("t"), ty: path("T"), borrow: Some(s("'lt")) }],
        vec![request("i32")],
    );
    raw.lifetimes = vec![s("'lt")];
    let out = generate(&raw);
    assert_eq!(out.types.len(), 1);
    let g = &out.types[0];
    assert_eq!(g.name, "BasicLtI32");
    assert_eq!(g.lifetimes, vec![s("'lt")]);
    assert_eq!(g.fields.len(), 1);
    assert_eq!(g.fields[0].name, "t");
    assert_eq!(g.fields[0].ty_text, "i32");
    assert_eq!(g.fields[0].borrow, Some(s("'lt")));
}

#[test]
fn nested_smoke() {
    let raw = input(
        "WithNestedFields",
        vec![field("opt", path("Vec<Vec<Option<T>>>"))],
        vec![request("i64")],
    );
    let out = generate(&raw);
    assert_eq!(out.types.len(), 1);
    let g = &out.types[0];
    assert_eq!(g.name, "WithNestedFieldsI64");
    assert_eq!(g.fields.len(), 1);
    assert_eq!(g.fields[0].name, "opt");
    assert_eq!(g.fields[0].ty_text, "Vec<Vec<Option<i64>>>");
}

#[test]
fn option_smoke() {
    let raw = input(
        "WithOpt",
        vec![field("normal", path("i32")), field("opt", path("Option<T>"))],
        vec![request("i64")],
    );
    let out = generate(&raw);
    assert_eq!(out.types.len(), 1);
    let g = &out.types[0];
    assert_eq!(g.name, "WithOptI64");
    assert_eq!(g.fields.len(), 2);
    assert_eq!(g.fields[0].name, "normal");
    assert_eq!(g.fields[0].ty_text, "i32");
    assert_eq!(g.fields[1].name, "opt");
    assert_eq!(g.fields[1].ty_text, "Option<i64>");
}

#[test]
fn direct_field_takes_concrete_type() {
    let raw = input("Basic", vec![field("ty", path("T"))], vec![request("I32")]);
    let out = generate(&raw);
    assert_eq!(out.types[0].name, "BasicI32");
    assert_eq!(out.types[0].fields[0].ty_text, "I32");
    assert_eq!(out.conversions.len(), 1);
    assert_eq!(out.conversions[0].specialized, "BasicI32");
    assert_eq!(out.conversions[0].field_names, vec![s("ty")]);
}

#[test]
fn optional_of_parameter_is_substituted() {
    let raw = input("Rec", vec![field("opt", path("Option<T>"))], vec![request("I64")]);
    let out = generate(&raw);
    assert_eq!(out.types[0].fields[0].ty_text, "Option<I64>");
}

#[test]
fn capability_lists_merge_base_first() {
    let mut raw = input("Rec", vec![field("ty", path("T"))], vec![]);
    raw.base_caps = vec![s("Clone")];
    raw.requests = vec![SpecRequest {
        concrete: s("u64"),
        caps: vec![s("Eq"), s("Debug")],
        annots: vec![],
    }];
    let out = generate(&raw);
    assert_eq!(out.types[0].capabilities, vec![s("Clone"), s("Eq"), s("Debug")]);
}

#[test]
fn fixed_size_array_field_is_opaque() {
    let raw = input(
        "NoSlices",
        vec![field("value", TypeExpr::Other { text: s("[T; 4]") })],
        vec![request("i32")],
    );
    let out = generate(&raw);
    // Documented limitation: the classifier does not see through array
    // positions; the text is copied verbatim and mismatches downstream.
    assert_eq!(out.types[0].fields[0].ty_text, "[T; 4]");
}

#[test]
fn field_names_and_order_are_kept() {
    let raw = input(
        "Rec",
        vec![field("a", path("T")), field("b", path("u8")), field("c", path("Vec<T>"))],
        vec![request("i64"), request("u32")],
    );
    let out = generate(&raw);
    for g in &out.types {
        let names: Vec<&str> = g.fields.iter().map(|f| f.name.as_str()).collect();
        assert_eq!(names, vec!["a", "b", "c"]);
    }
}

#[test]
fn annotation_strings_are_accepted_when_they_parse() {
    let mut raw = input("Rec", vec![field("ty", path("T"))], vec![]);
    raw.requests = vec![SpecRequest {
        concrete: s("i16"),
        caps: vec![s("serde::Deserialize"), s("serde::Serialize")],
        annots: vec![s("serde(rename_all = \"SCREAMING_SNAKE_CASE\")")],
    }];
    let out = generate(&raw);
    assert_eq!(out.types[0].name, "RecI16");
    assert_eq!(
        out.types[0].annotations,
        vec![s("serde(rename_all = \"SCREAMING_SNAKE_CASE\")")]
    );
}

#[test]
fn malformed_annotation_aborts_generation() {
    let mut raw = input("Rec", vec![field("ty", path("T"))], vec![]);
    raw.requests = vec![SpecRequest {
        concrete: s("i16"),
        caps: vec![],
        annots: vec![s("!!!")],
    }];
    let r = def_gen(&raw);
    match r {
        Err(GenError::BadAnnotation { text }) => assert_eq!(text, "!!!"),
        _ => panic!("expected an annotation error"),
    }
}

#[test]
fn unparsable_substitution_aborts_generation() {
    let raw = input("Rec", vec![field("v", path("Vec<T>"))], vec![request(")")]);
    let r = def_gen(&raw);
    match r {
        Err(GenError::BadSubstitution { text }) => assert_eq!(text, "Vec<)>"),
        _ => panic!("expected a substitution error"),
    }
}

#[test]
fn colliding_derived_names_abort_generation() {
    let raw = input(
        "Rec",
        vec![field("ty", path("T"))],
        vec![request("i32"), request("i32")],
    );
    let r = def_gen(&raw);
    match r {
        Err(GenError::NameCollision { name }) => assert_eq!(name, "RecI32"),
        _ => panic!("expected a name collision"),
    }
}

#[test]
fn const_generic_parameter_is_rejected() {
    let mut raw = input("Rec", vec![field("ty", path("T"))], vec![request("i32")]);
    raw.has_const_param = true;
    assert!(matches!(def_gen(&raw), Err(GenError::ConstParam)));
}

#[test]
fn parameter_count_other_than_one_is_rejected() {
    let mut raw = input("Rec", vec![field("ty", path("T"))], vec![request("i32")]);
    raw.type_params = vec![s("T"), s("U")];
    assert!(matches!(def_gen(&raw), Err(GenError::ParamCount { found: 2 })));
    raw.type_params = vec![];
    assert!(matches!(def_gen(&raw), Err(GenError::ParamCount { found: 0 })));
}

#[test]
fn whitespace_in_templates_is_canonicalized() {
    let raw = input("Rec", vec![field("v", path("Vec< Option< T > >"))], vec![request("i8")]);
    let out = generate(&raw);
    assert_eq!(out.types[0].fields[0].ty_text, "Vec<Option<i8>>");
}

#[test]
fn whitespace_in_concrete_types_is_canonicalized() {
    let raw = input("Rec", vec![field("v", path("Vec<T>"))], vec![request("Box < u8 >")]);
    let out = generate(&raw);
    assert_eq!(out.types[0].fields[0].ty_text, "Vec<Box<u8>>");
}

#[test]
fn no_requests_generate_no_types() {
    let raw = input("Rec", vec![field("ty", path("T"))], vec![]);
    let out = generate(&raw);
    assert!(out.types.is_empty());
    assert!(out.conversions.is_empty());
}
