use enki::ast::{AttrInput, DataInput, DeriveInput, FieldInput, FnInput, LenAst, MetaItem, ParamInput, Stmt, TypeAst};
use enki::error::CodegenError;
use enki::ir::{FieldType, ParsedParam, ShaderType, SystemValue};
use enki::parse::{is_known_flag, parse_enki_function, parse_params, parse_enki_struct, parse_field_attributes, parse_type, parse_usize};

fn ty(n: &str) -> TypeAst {
    TypeAst::Path(Some(n.to_string()))
}

fn arr(elem: &str, len: &str) -> TypeAst {
    TypeAst::Array(Box::new(ty(elem)), LenAst::Int(len.to_string()))
}

fn err_text(e: CodegenError) -> String {
    match e {
        CodegenError::Message(m) => m,
        CodegenError::Unresolved(n) => panic!("unresolved {}", n),
    }
}

fn enki_attr(items: Vec<MetaItem>) -> AttrInput {
    AttrInput { is_enki: true, items, syntax_error: None }
}

#[test]
fn parse_usize_follows_str_parse() {
    assert_eq!(parse_usize("3"), Some(3));
    assert_eq!(parse_usize("+12"), Some(12));
    assert_eq!(parse_usize("007"), Some(7));
    assert_eq!(parse_usize(""), None);
    assert_eq!(parse_usize("+"), None);
    assert_eq!(parse_usize("1x"), None);
    assert_eq!(parse_usize("99999999999999999999999999"), None);
    assert_eq!(parse_usize(&usize::MAX.to_string()), Some(usize::MAX));
}

#[test]
fn scalar_and_vector_field_types() {
    assert!(matches!(parse_type(&ty("f32")), Ok(FieldType::Float)));
    assert!(matches!(parse_type(&ty("u32")), Ok(FieldType::Uint)));
    assert!(matches!(parse_type(&arr("f32", "3")), Ok(FieldType::Float3)));
    assert!(matches!(parse_type(&arr("i32", "4")), Ok(FieldType::Int4)));
    assert_eq!(parse_type(&arr("f32", "2")).unwrap().to_slang_type(), "float2");
    assert_eq!(parse_type(&arr("i32", "3")).unwrap().to_slang_type(), "int3");
}

#[test]
fn unsupported_field_types_are_explained() {
    assert_eq!(
        err_text(parse_type(&ty("f64")).unwrap_err()),
        "Unsupported primitive GPU type: 'f64'. Only f32, i32, and u32 are supported in EnkiStruct."
    );
    assert_eq!(
        err_text(parse_type(&arr("u32", "3")).unwrap_err()),
        "Unsupported GPU vector dimensions. Supported array vector dimensions are 2, 3, or 4 (e.g., [f32; 3] or [i32; 4])."
    );
    assert_eq!(
        err_text(parse_type(&arr("f32", "5")).unwrap_err()),
        "Unsupported GPU vector dimensions. Supported array vector dimensions are 2, 3, or 4 (e.g., [f32; 3] or [i32; 4])."
    );
    assert_eq!(
        err_text(parse_type(&TypeAst::Array(Box::new(ty("f32")), LenAst::OtherLit)).unwrap_err()),
        "Array dimensions length must be an integer literal."
    );
    assert_eq!(
        err_text(parse_type(&TypeAst::Array(Box::new(ty("f32")), LenAst::NotLit)).unwrap_err()),
        "Array dimensions length must be a constant literal."
    );
    assert_eq!(
        err_text(parse_type(&arr("f32", "99999999999999999999999")).unwrap_err()),
        "number too large to fit in target type"
    );
    assert_eq!(err_text(parse_type(&TypeAst::Path(None)).unwrap_err()), "Invalid or empty type path");
    assert_eq!(
        err_text(parse_type(&TypeAst::Other).unwrap_err()),
        "Unsupported GPU memory type. GPU structures can only contain primitives (f32, i32, u32) or standard float/int vectors."
    );
}

#[test]
fn field_attributes_last_item_wins() {
    assert_eq!(parse_field_attributes(&vec![]).unwrap(), SystemValue::Plain);
    let attrs = vec![
        AttrInput { is_enki: false, items: vec![], syntax_error: None },
        enki_attr(vec![MetaItem::Flag("flat".to_string())]),
        enki_attr(vec![MetaItem::Target(2)]),
    ];
    assert_eq!(parse_field_attributes(&attrs).unwrap(), SystemValue::Target(2));
    let attrs = vec![enki_attr(vec![MetaItem::Target(1), MetaItem::Flag("position".to_string())])];
    assert_eq!(parse_field_attributes(&attrs).unwrap(), SystemValue::Position);
    let bad = vec![enki_attr(vec![MetaItem::Flag("smooth".to_string())])];
    assert_eq!(
        err_text(parse_field_attributes(&bad).unwrap_err()),
        "Unsupported parameter inside #[enki(...)] attribute"
    );
    let syntax = vec![AttrInput { is_enki: true, items: vec![], syntax_error: Some("expected `=`".to_string()) }];
    assert_eq!(err_text(parse_field_attributes(&syntax).unwrap_err()), "expected `=`");
    assert!(is_known_flag("vertex_id"));
    assert!(!is_known_flag("target"));
}

#[test]
fn struct_with_named_fields_is_recorded() {
    let input = DeriveInput {
        name: "Particle".to_string(),
        data: DataInput::Named(vec![
            FieldInput { ident: Some("pos".to_string()), ty: arr("f32", "3"), attrs: vec![] },
            FieldInput {
                ident: Some("color".to_string()),
                ty: arr("f32", "4"),
                attrs: vec![enki_attr(vec![MetaItem::Target(0)])],
            },
            FieldInput { ident: Some("id".to_string()), ty: ty("u32"), attrs: vec![] },
        ]),
    };
    let s = parse_enki_struct(&input).unwrap();
    assert_eq!(s.name, "Particle");
    assert_eq!(s.fields.len(), 3);
    assert_eq!(s.fields[0].name, "pos");
    assert!(matches!(s.fields[0].ty, FieldType::Float3));
    assert_eq!(s.fields[1].system_value, SystemValue::Target(0));
    assert!(matches!(s.fields[2].ty, FieldType::Uint));
    assert_eq!(s.fields[2].system_value, SystemValue::Plain);
}

#[test]
fn derive_refuses_other_items() {
    let e = parse_enki_struct(&DeriveInput { name: "E".to_string(), data: DataInput::NotStruct }).unwrap_err();
    assert_eq!(err_text(e), "EnkiStruct can only be derived on standard structs with named fields.");
    let e = parse_enki_struct(&DeriveInput { name: "T".to_string(), data: DataInput::Unnamed }).unwrap_err();
    assert_eq!(
        err_text(e),
        "EnkiStruct only supports standard structs with named fields (e.g., struct MyStruct { field: Type })."
    );
    let e = parse_enki_struct(&DeriveInput {
        name: "T".to_string(),
        data: DataInput::Named(vec![FieldInput { ident: None, ty: ty("f32"), attrs: vec![] }]),
    })
    .unwrap_err();
    assert_eq!(err_text(e), "Field must have a valid identifier name");
}

#[test]
fn kernel_signature_splits_buffers_and_scalars() {
    let item = FnInput {
        name: "integrate".to_string(),
        inputs: vec![
            ParamInput::Typed(Some("particles".to_string()), ty("Particle")),
            ParamInput::Typed(Some("dt".to_string()), ty("f32")),
            ParamInput::Typed(Some("n".to_string()), ty("u32")),
        ],
        output: None,
        body: vec![Stmt::Other],
    };
    let f = parse_enki_function(item, ShaderType::Compute).unwrap();
    assert_eq!(f.name, "integrate");
    assert_eq!(f.shader_type, ShaderType::Compute);
    assert!(matches!(&f.params[0], ParsedParam::Array(n, s) if n == "particles" && s == "Particle"));
    assert!(matches!(&f.params[1], ParsedParam::Scalar(n, FieldType::Float) if n == "dt"));
    assert!(matches!(&f.params[2], ParsedParam::Scalar(n, FieldType::Uint) if n == "n"));
    assert!(f.return_type.is_none());
    assert_eq!(f.block.len(), 1);
}

#[test]
fn kernel_return_types() {
    let mk = |output: Option<TypeAst>| FnInput { name: "f".to_string(), inputs: vec![], output, body: vec![] };
    assert_eq!(parse_enki_function(mk(Some(ty("VertexOut"))), ShaderType::Vertex).unwrap().return_type, Some("VertexOut".to_string()));
    assert_eq!(parse_enki_function(mk(Some(arr("f32", "4"))), ShaderType::Fragment).unwrap().return_type, Some("float4".to_string()));
    assert_eq!(parse_enki_function(mk(Some(arr("f32", "5"))), ShaderType::Fragment).unwrap().return_type, None);
    assert_eq!(parse_enki_function(mk(Some(arr("i32", "4"))), ShaderType::Fragment).unwrap().return_type, None);
    assert_eq!(parse_enki_function(mk(Some(TypeAst::Other)), ShaderType::Fragment).unwrap().return_type, None);
    let e = parse_enki_function(mk(Some(TypeAst::Path(None))), ShaderType::Fragment).err().unwrap();
    assert_eq!(err_text(e), "Invalid return type path");
}

#[test]
fn kernel_signature_errors() {
    let mk = |p: ParamInput| FnInput { name: "f".to_string(), inputs: vec![p], output: None, body: vec![] };
    let e = parse_enki_function(mk(ParamInput::Receiver), ShaderType::Compute).err().unwrap();
    assert_eq!(
        err_text(e),
        "Enki GPU kernels do not support 'self' parameters. They must be regular static or global functions."
    );
    let e = parse_enki_function(mk(ParamInput::Typed(None, ty("f32"))), ShaderType::Compute).err().unwrap();
    assert_eq!(
        err_text(e),
        "Unsupported parameter pattern. Only simple, direct variable names are supported on the GPU."
    );
    let e = parse_enki_function(mk(ParamInput::Typed(Some("a".to_string()), TypeAst::Path(None))), ShaderType::Compute)
        .err()
        .unwrap();
    assert_eq!(err_text(e), "Invalid or empty parameter type path");
    let e = parse_enki_function(mk(ParamInput::Typed(Some("a".to_string()), arr("f32", "3"))), ShaderType::Compute)
        .err()
        .unwrap();
    assert_eq!(
        err_text(e),
        "Unsupported GPU function parameter type. Must be a primitive (f32, i32, u32) or a custom EnkiStruct."
    );
}

#[test]
fn parameter_errors_come_before_the_return_type() {
    let inputs = vec![ParamInput::Receiver, ParamInput::Typed(Some("n".to_string()), TypeAst::Path(Some("u32".to_string())))];
    match parse_params(&inputs) {
        Err(CodegenError::Message(m)) => assert_eq!(
            m,
            "Enki GPU kernels do not support 'self' parameters. They must be regular static or global functions."
        ),
        _ => panic!("expected the receiver error"),
    }
    let f = FnInput {
        name: "k".to_string(),
        inputs,
        output: Some(TypeAst::Array(Box::new(TypeAst::Path(None)), LenAst::Int("3".to_string()))),
        body: vec![],
    };
    assert!(matches!(parse_enki_function(f, ShaderType::Vertex), Err(CodegenError::Message(_))));
    let ok = parse_params(&vec![ParamInput::Typed(Some("p".to_string()), TypeAst::Path(Some("Particle".to_string())))]);
    match ok {
        Ok(ps) => assert!(matches!(&ps[0], ParsedParam::Array(a, b) if a == "p" && b == "Particle")),
        Err(_) => panic!("expected the parameter to read"),
    }
}
