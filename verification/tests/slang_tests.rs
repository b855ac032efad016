use enki::error::CodegenError;
use enki::ir::{FieldType, ParsedField, ParsedFunction, ParsedParam, ParsedStruct, ShaderType, StructRegistry, SystemValue};
use enki::slang::generate_slang_source;

fn field(n: &str, ty: FieldType, sv: SystemValue) -> ParsedField {
    ParsedField { name: n.to_string(), ty, system_value: sv }
}

fn registry() -> StructRegistry {
    let mut reg = StructRegistry::new();
    reg.record(
        "Particle".to_string(),
        Ok(ParsedStruct {
            name: "Particle".to_string(),
            fields: vec![
                field("pos", FieldType::Float3, SystemValue::Plain),
                field("mass", FieldType::Float, SystemValue::Plain),
            ],
        }),
    );
    reg.record(
        "Vertex".to_string(),
        Ok(ParsedStruct {
            name: "Vertex".to_string(),
            fields: vec![
                field("pos", FieldType::Float2, SystemValue::Plain),
                field("uv", FieldType::Float2, SystemValue::Plain),
            ],
        }),
    );
    reg.record(
        "Varyings".to_string(),
        Ok(ParsedStruct {
            name: "Varyings".to_string(),
            fields: vec![
                field("pos", FieldType::Float2, SystemValue::Position),
                field("layer", FieldType::Uint, SystemValue::Flat),
                field("color", FieldType::Float4, SystemValue::Target(1)),
            ],
        }),
    );
    reg.record(
        "Camera".to_string(),
        Ok(ParsedStruct { name: "Camera".to_string(), fields: vec![field("scale", FieldType::Float, SystemValue::Plain)] }),
    );
    reg.record(
        "GBuffer".to_string(),
        Ok(ParsedStruct {
            name: "GBuffer".to_string(),
            fields: vec![
                field("albedo", FieldType::Float4, SystemValue::Target(0)),
                field("normal", FieldType::Float4, SystemValue::Target(1)),
                field("z", FieldType::Float, SystemValue::Depth),
                field("misc", FieldType::Float, SystemValue::Plain),
            ],
        }),
    );
    reg
}

fn func(shader_type: ShaderType, params: Vec<ParsedParam>, ret: Option<&str>) -> ParsedFunction {
    ParsedFunction {
        name: "k".to_string(),
        shader_type,
        params,
        block: vec![],
        return_type: ret.map(|r| r.to_string()),
    }
}

fn array(n: &str, s: &str) -> ParsedParam {
    ParsedParam::Array(n.to_string(), s.to_string())
}

#[test]
fn compute_source_declares_each_struct_once() {
    let f = func(
        ShaderType::Compute,
        vec![
            array("a", "Particle"),
            ParsedParam::Scalar("dt".to_string(), FieldType::Float),
            array("b", "Particle"),
            ParsedParam::Scalar("n".to_string(), FieldType::Uint),
        ],
        None,
    );
    let src = generate_slang_source(&f, "    BODY", &registry()).unwrap();
    let expected = "struct Particle {\n    float3 pos;\n    float mass;\n};\n\n\
RWStructuredBuffer<Particle> a[] : register(u0);\n\
RWStructuredBuffer<Particle> b[] : register(u0);\n\n\
struct PushConstants {\n    float dt;\n    uint n;\n};\n\
ParameterBlock<PushConstants> pc;\n\n\
[shader(\"compute\")]\n[numthreads(64, 1, 1)]\n\
void main(uint3 thread_idx : SV_DispatchThreadID) {\n    uint index = thread_idx.x;\n\n    BODY\n}\n";
    assert_eq!(src, expected);
}

#[test]
fn compute_source_without_parameters() {
    let f = func(ShaderType::Compute, vec![], None);
    let src = generate_slang_source(&f, "", &StructRegistry::new()).unwrap();
    assert_eq!(
        src,
        "[shader(\"compute\")]\n[numthreads(64, 1, 1)]\nvoid main(uint3 thread_idx : SV_DispatchThreadID) {\n    uint index = thread_idx.x;\n\n\n}\n"
    );
}

#[test]
fn compute_source_asks_for_missing_layout() {
    let f = func(ShaderType::Compute, vec![array("a", "Unknown")], None);
    match generate_slang_source(&f, "", &registry()) {
        Err(CodegenError::Unresolved(n)) => assert_eq!(n, "Unknown"),
        other => panic!("unexpected {:?}", other),
    }
}

#[test]
fn vertex_source_locates_inputs_and_marks_outputs() {
    let f = func(ShaderType::Vertex, vec![array("v", "Vertex"), array("cam", "Camera")], Some("Varyings"));
    let src = generate_slang_source(&f, "BODY", &registry()).unwrap();
    let expected = "struct Vertex {\n    [[vk::location(0)]] float2 pos;\n    [[vk::location(1)]] float2 uv;\n};\n\n\
struct Varyings {\n    float4 pos : SV_Position;\n    no_perspective uint layer;\n    float4 color : SV_Target1;\n};\n\n\
struct Camera {\n    float scale;\n};\n\nConstantBuffer<Camera> cam : register(b0);\n\n\
[shader(\"vertex\")]\nVaryings main(Vertex v, uint vertex_id : SV_VertexID, uint instance_id : SV_InstanceID) {\nBODY\n}\n";
    assert_eq!(src, expected);
}

#[test]
fn vertex_source_errors() {
    let reg = registry();
    let e = generate_slang_source(&func(ShaderType::Vertex, vec![], Some("Varyings")), "", &reg).unwrap_err();
    assert!(matches!(e, CodegenError::Message(m) if m == "[Vertex Generator] Vertex Shader must have at least one input parameter representing vertex attributes."));
    let e = generate_slang_source(
        &func(ShaderType::Vertex, vec![ParsedParam::Scalar("t".to_string(), FieldType::Float)], Some("Varyings")),
        "",
        &reg,
    )
    .unwrap_err();
    assert!(matches!(e, CodegenError::Message(m) if m == "[Vertex Generator] First parameter must be a custom struct representing vertex attributes."));
    let e = generate_slang_source(&func(ShaderType::Vertex, vec![array("v", "Vertex")], None), "", &reg).unwrap_err();
    assert!(matches!(e, CodegenError::Message(m) if m == "[Vertex Generator] Vertex Shader must return a custom EnkiStruct containing position output."));
}

#[test]
fn fragment_source_with_vector_output() {
    let f = func(ShaderType::Fragment, vec![array("inp", "Varyings")], Some("float4"));
    let src = generate_slang_source(&f, "BODY", &registry()).unwrap();
    let expected = "struct Varyings {\n    float4 pos : SV_Position;\n    no_perspective uint layer;\n    float4 color;\n};\n\n\
[shader(\"fragment\")]\nfloat4 main(Varyings inp) : SV_Target0 {\nBODY\n}\n";
    assert_eq!(src, expected);
    let f = func(ShaderType::Fragment, vec![array("inp", "Varyings")], None);
    let src = generate_slang_source(&f, "", &registry()).unwrap();
    assert!(src.ends_with("[shader(\"fragment\")]\nfloat4 main(Varyings inp) : SV_Target0 {\n\n}\n"));
}

#[test]
fn fragment_source_with_struct_output() {
    let f = func(ShaderType::Fragment, vec![array("inp", "Varyings"), array("cam", "Camera")], Some("GBuffer"));
    let src = generate_slang_source(&f, "BODY", &registry()).unwrap();
    let expected = "struct Varyings {\n    float4 pos : SV_Position;\n    no_perspective uint layer;\n    float4 color;\n};\n\n\
struct Camera {\n    float scale;\n};\n\nConstantBuffer<Camera> cam : register(b0);\n\n\
struct GBuffer {\n    float4 albedo : SV_Target0;\n    float4 normal : SV_Target1;\n    float z : SV_Depth;\n    float misc : SV_Target0;\n};\n\n\
[shader(\"fragment\")]\nGBuffer main(Varyings inp) {\nBODY\n}\n";
    assert_eq!(src, expected);
}

#[test]
fn fragment_source_errors() {
    let reg = registry();
    let e = generate_slang_source(&func(ShaderType::Fragment, vec![], None), "", &reg).unwrap_err();
    assert!(matches!(e, CodegenError::Message(m) if m == "[Fragment Generator] Fragment Shader must have at least one input parameter representing varying attributes from vertex shader."));
    let e = generate_slang_source(
        &func(ShaderType::Fragment, vec![ParsedParam::Scalar("t".to_string(), FieldType::Float)], None),
        "",
        &reg,
    )
    .unwrap_err();
    assert!(matches!(e, CodegenError::Message(m) if m == "[Fragment Generator] First parameter must be a custom struct representing varying vertex outputs."));
}
