use enki::ast::{BinOp, Expr, FieldValue, Lit, Member, Pattern, Stmt, UnOp};
use enki::error::CodegenError;
use enki::ir::{
    FieldType, ParsedField, ParsedFunction, ParsedParam, ParsedStruct, ShaderType, StructRegistry, SystemValue,
};
use enki::translate::{translate_bin_op, translate_expr, translate_function_body, translate_stmt};

fn path(n: &str) -> Expr {
    Expr::Path(Some(n.to_string()))
}

fn float(t: &str) -> Expr {
    Expr::Lit(Lit::Float(t.to_string()))
}

fn names(v: &[&str]) -> Vec<String> {
    v.iter().map(|x| x.to_string()).collect()
}

fn message(r: Result<String, CodegenError>) -> String {
    match r {
        Err(CodegenError::Message(m)) => m,
        other => panic!("expected a diagnostic, got {:?}", other),
    }
}

fn vertex_out_registry() -> StructRegistry {
    let mut reg = StructRegistry::new();
    reg.record(
        "VertexOut".to_string(),
        Ok(ParsedStruct {
            name: "VertexOut".to_string(),
            fields: vec![
                ParsedField { name: "pos".to_string(), ty: FieldType::Float2, system_value: SystemValue::Position },
                ParsedField { name: "color".to_string(), ty: FieldType::Float3, system_value: SystemValue::Plain },
            ],
        }),
    );
    reg
}

#[test]
fn paths_read_scalars_from_push_constants_and_index_buffers_by_slot() {
    let reg = StructRegistry::new();
    let arrays = names(&["particles", "forces"]);
    let scalars = names(&["dt"]);
    assert_eq!(translate_expr(&path("dt"), &arrays, &scalars, ShaderType::Compute, &reg).unwrap(), "pc.dt");
    assert_eq!(
        translate_expr(&path("forces"), &arrays, &scalars, ShaderType::Compute, &reg).unwrap(),
        "forces[1][index]"
    );
    assert_eq!(translate_expr(&path("forces"), &arrays, &scalars, ShaderType::Vertex, &reg).unwrap(), "forces");
    assert_eq!(translate_expr(&path("local"), &arrays, &scalars, ShaderType::Compute, &reg).unwrap(), "local");
    assert_eq!(message(translate_expr(&Expr::Path(None), &arrays, &scalars, ShaderType::Compute, &reg)), "Invalid path");
}

#[test]
fn binary_expressions_are_parenthesized() {
    let reg = StructRegistry::new();
    let e = Expr::Binary(
        Box::new(Expr::Field(Box::new(path("p")), Member::Named("x".to_string()))),
        BinOp::Add,
        Box::new(Expr::Binary(Box::new(path("v")), BinOp::Mul, Box::new(path("dt")))),
    );
    let out = translate_expr(&e, &names(&["p"]), &names(&["dt"]), ShaderType::Compute, &reg).unwrap();
    assert_eq!(out, "(p[0][index].x + (v * pc.dt))");
    let bad = Expr::Binary(Box::new(path("a")), BinOp::Other, Box::new(path("b")));
    assert_eq!(message(translate_expr(&bad, &[], &[], ShaderType::Compute, &reg)), "Unsupported binary operator on the GPU");
}

#[test]
fn literals_unary_index_assign_and_arrays() {
    let reg = StructRegistry::new();
    assert_eq!(translate_expr(&Expr::Lit(Lit::Bool(true)), &[], &[], ShaderType::Compute, &reg).unwrap(), "true");
    assert_eq!(translate_expr(&Expr::Lit(Lit::Int("42".to_string())), &[], &[], ShaderType::Compute, &reg).unwrap(), "42");
    assert_eq!(
        message(translate_expr(&Expr::Lit(Lit::Other), &[], &[], ShaderType::Compute, &reg)),
        "Unsupported literal type on the GPU"
    );
    let neg = Expr::Unary(UnOp::Neg, Box::new(Expr::Paren(Box::new(path("a")))));
    assert_eq!(translate_expr(&neg, &[], &[], ShaderType::Compute, &reg).unwrap(), "-(a)");
    let deref = Expr::Unary(UnOp::Other, Box::new(path("a")));
    assert_eq!(message(translate_expr(&deref, &[], &[], ShaderType::Compute, &reg)), "Unsupported unary operator on the GPU");
    let idx = Expr::Index(Box::new(path("v")), Box::new(Expr::Lit(Lit::Int("2".to_string()))));
    assert_eq!(translate_expr(&idx, &[], &[], ShaderType::Compute, &reg).unwrap(), "v[2]");
    let asg = Expr::Assign(Box::new(path("x")), Box::new(float("1.0")));
    assert_eq!(translate_expr(&asg, &[], &[], ShaderType::Compute, &reg).unwrap(), "x = 1.0;");
    let arr = Expr::Array(vec![float("1.0"), float("0.5"), float("0.0")]);
    assert_eq!(translate_expr(&arr, &[], &[], ShaderType::Fragment, &reg).unwrap(), "float3(1.0, 0.5, 0.0)");
    let tuple = Expr::Field(Box::new(path("t")), Member::Unnamed);
    assert_eq!(message(translate_expr(&tuple, &[], &[], ShaderType::Compute, &reg)), "Tuple indices are not supported on the GPU");
    assert_eq!(
        message(translate_expr(&Expr::Other, &[], &[], ShaderType::Compute, &reg)),
        "This statement or expression is too complex to compile to the GPU. Keep math blocks simple."
    );
}

#[test]
fn method_and_function_calls_map_to_intrinsics() {
    let reg = StructRegistry::new();
    let m = Expr::MethodCall(Box::new(path("x")), "sqrt".to_string(), vec![]);
    assert_eq!(translate_expr(&m, &[], &[], ShaderType::Compute, &reg).unwrap(), "sqrt(x)");
    let bad = Expr::MethodCall(Box::new(path("x")), "signum".to_string(), vec![]);
    assert_eq!(message(translate_expr(&bad, &[], &[], ShaderType::Compute, &reg)), "Unsupported GPU math method: 'signum'");
    let c = Expr::Call(Box::new(path("dot")), vec![path("a"), path("b")]);
    assert_eq!(translate_expr(&c, &[], &[], ShaderType::Compute, &reg).unwrap(), "dot(a, b)");
    let badf = Expr::Call(Box::new(path("hypot")), vec![path("a"), path("b")]);
    assert_eq!(message(translate_expr(&badf, &[], &[], ShaderType::Compute, &reg)), "Unsupported GPU math function: 'hypot'");
    let nopath = Expr::Call(Box::new(Expr::Path(None)), vec![]);
    assert_eq!(message(translate_expr(&nopath, &[], &[], ShaderType::Compute, &reg)), "Invalid function call path");
    let closure = Expr::Call(Box::new(Expr::Paren(Box::new(path("f")))), vec![]);
    assert_eq!(message(translate_expr(&closure, &[], &[], ShaderType::Compute, &reg)), "Unsupported function call expression");
}

#[test]
fn struct_literal_assigns_layout_fields_and_widens_position() {
    let reg = vertex_out_registry();
    let lit = Expr::Struct(
        Some("VertexOut".to_string()),
        vec![
            FieldValue { member: Member::Named("color".to_string()), expr: path("c") },
            FieldValue { member: Member::Named("pos".to_string()), expr: path("p") },
            FieldValue { member: Member::Named("extra".to_string()), expr: path("e") },
        ],
    );
    let out = translate_expr(&lit, &names(&["input"]), &[], ShaderType::Vertex, &reg).unwrap();
    assert_eq!(
        out,
        "    VertexOut _tmp;\n    _tmp.pos = float4(p, 0.0, 1.0);\n    _tmp.color = c;\n    return _tmp;"
    );
}

#[test]
fn struct_literal_without_layout_asks_for_it() {
    let reg = StructRegistry::new();
    let lit = Expr::Struct(Some("Missing".to_string()), vec![]);
    match translate_expr(&lit, &[], &[], ShaderType::Vertex, &reg) {
        Err(CodegenError::Unresolved(n)) => assert_eq!(n, "Missing"),
        other => panic!("unexpected {:?}", other),
    }
    let mut reg = StructRegistry::new();
    reg.record("Missing".to_string(), Err("cannot read".to_string()));
    assert_eq!(message(translate_expr(&lit, &[], &[], ShaderType::Vertex, &reg)), "cannot read");
    assert_eq!(message(translate_expr(&Expr::Struct(None, vec![]), &[], &[], ShaderType::Vertex, &reg)), "Invalid struct path");
}

#[test]
fn loading_an_unrelated_layout_keeps_a_translation() {
    let e = Expr::Binary(Box::new(path("a")), BinOp::Sub, Box::new(path("b")));
    let before = translate_expr(&e, &[], &[], ShaderType::Compute, &StructRegistry::new()).unwrap();
    let after = translate_expr(&e, &[], &[], ShaderType::Compute, &vertex_out_registry()).unwrap();
    assert_eq!(before, after);
}

#[test]
fn statements_become_lines() {
    let reg = StructRegistry::new();
    let let_mut = Stmt::Local(Pattern::Ident("acc".to_string(), true), Some(float("0.0")));
    assert_eq!(translate_stmt(&let_mut, &[], &[], ShaderType::Compute, &reg).unwrap(), "var acc = 0.0;");
    let let_plain = Stmt::Local(Pattern::Ident("k".to_string(), false), Some(path("n")));
    assert_eq!(translate_stmt(&let_plain, &[], &[], ShaderType::Compute, &reg).unwrap(), "let k = n;");
    let uninit = Stmt::Local(Pattern::Ident("k".to_string(), false), None);
    assert_eq!(
        message(translate_stmt(&uninit, &[], &[], ShaderType::Compute, &reg)),
        "Variable declarations on the GPU must have an initial value (e.g., let x = 0.0;)."
    );
    let tuple_pat = Stmt::Local(Pattern::Other, Some(path("n")));
    assert_eq!(
        message(translate_stmt(&tuple_pat, &[], &[], ShaderType::Compute, &reg)),
        "Unsupported variable pattern. Only simple variable names (e.g., let x = ... or let mut x = ...) are allowed on the GPU."
    );
    let assign = Stmt::Expr(Expr::Assign(Box::new(path("x")), Box::new(path("y"))), true);
    assert_eq!(translate_stmt(&assign, &[], &[], ShaderType::Compute, &reg).unwrap(), "x = y;");
    let call = Stmt::Expr(path("x"), true);
    assert_eq!(translate_stmt(&call, &[], &[], ShaderType::Compute, &reg).unwrap(), "x;");
    let tail = Stmt::Expr(path("color"), false);
    assert_eq!(translate_stmt(&tail, &[], &[], ShaderType::Fragment, &reg).unwrap(), "return color;");
    assert_eq!(translate_stmt(&tail, &[], &[], ShaderType::Compute, &reg).unwrap(), "color;");
    assert_eq!(
        message(translate_stmt(&Stmt::Other, &[], &[], ShaderType::Compute, &reg)),
        "Unsupported statement inside GPU mathematical blocks. Only local variables (let/let mut) and assignments are allowed."
    );
}

#[test]
fn tail_struct_literal_keeps_its_own_return() {
    let reg = vertex_out_registry();
    let lit = Expr::Struct(
        Some("VertexOut".to_string()),
        vec![FieldValue { member: Member::Named("color".to_string()), expr: path("c") }],
    );
    let out = translate_stmt(&Stmt::Expr(lit, false), &[], &[], ShaderType::Vertex, &reg).unwrap();
    assert_eq!(out, "    VertexOut _tmp;\n    _tmp.color = c;\n    return _tmp;");
}

#[test]
fn function_body_is_indented_line_by_line() {
    let reg = StructRegistry::new();
    let f = ParsedFunction {
        name: "step".to_string(),
        shader_type: ShaderType::Compute,
        params: vec![
            ParsedParam::Array("p".to_string(), "Particle".to_string()),
            ParsedParam::Scalar("dt".to_string(), FieldType::Float),
        ],
        block: vec![
            Stmt::Local(Pattern::Ident("v".to_string(), false), Some(Expr::Field(Box::new(path("p")), Member::Named("vel".to_string())))),
            Stmt::Expr(
                Expr::Assign(
                    Box::new(Expr::Field(Box::new(path("p")), Member::Named("pos".to_string()))),
                    Box::new(Expr::Binary(Box::new(path("v")), BinOp::Mul, Box::new(path("dt")))),
                ),
                true,
            ),
        ],
        return_type: None,
    };
    let body = translate_function_body(&f, &reg).unwrap();
    assert_eq!(body, "    let v = p[0][index].vel;\n    p[0][index].pos = (v * pc.dt);");
}

#[test]
fn bin_op_spellings() {
    assert_eq!(translate_bin_op(&BinOp::Le), "<=");
    assert_eq!(translate_bin_op(&BinOp::RemAssign), "%=");
    assert_eq!(translate_bin_op(&BinOp::And), "&&");
    assert_eq!(translate_bin_op(&BinOp::Other), "");
}

#[test]
fn calls_map_the_translations_of_their_operands() {
    let reg = StructRegistry::new();
    let arrays = names(&["particles"]);
    let scalars = names(&["dt"]);
    let m = Expr::MethodCall(Box::new(path("dt")), "max".to_string(), vec![path("particles")]);
    assert_eq!(translate_expr(&m, &arrays, &scalars, ShaderType::Compute, &reg).unwrap(), "max(pc.dt, particles[0][index])");
    let c = Expr::Call(Box::new(path("pow")), vec![path("dt"), float("2.0")]);
    assert_eq!(translate_expr(&c, &arrays, &scalars, ShaderType::Compute, &reg).unwrap(), "pow(pc.dt, 2.0)");
    let bad_arg = Expr::Call(Box::new(path("pow")), vec![path("dt"), Expr::Other]);
    assert_eq!(
        message(translate_expr(&bad_arg, &arrays, &scalars, ShaderType::Compute, &reg)),
        "This statement or expression is too complex to compile to the GPU. Keep math blocks simple."
    );
    let bad_receiver = Expr::MethodCall(Box::new(Expr::Other), "sqrt".to_string(), vec![]);
    assert!(translate_expr(&bad_receiver, &arrays, &scalars, ShaderType::Compute, &reg).is_err());
}
