use enki::emitter::{dispatch_group_count, map_field_type_to_rust_type, plan_rust_wrapper};
use enki::slang::WORKGROUP_SIZE_X;
use enki::ir::{FieldType, ParsedFunction, ParsedParam, ShaderType};

#[test]
fn wrapper_plan_binds_buffers_in_order_and_collects_scalars() {
    let f = ParsedFunction {
        name: "integrate".to_string(),
        shader_type: ShaderType::Compute,
        params: vec![
            ParsedParam::Scalar("dt".to_string(), FieldType::Float),
            ParsedParam::Array("particles".to_string(), "Particle".to_string()),
            ParsedParam::Array("forces".to_string(), "Force".to_string()),
            ParsedParam::Scalar("offset".to_string(), FieldType::Int3),
        ],
        block: vec![],
        return_type: None,
    };
    let plan = plan_rust_wrapper(&f);
    assert_eq!(plan.func_name, "integrate");
    assert_eq!(plan.array_names, vec!["particles".to_string(), "forces".to_string()]);
    assert_eq!(plan.array_structs, vec!["Particle".to_string(), "Force".to_string()]);
    assert_eq!(plan.array_indices, vec![0, 1]);
    assert_eq!(plan.scalar_names, vec!["dt".to_string(), "offset".to_string()]);
    assert_eq!(plan.scalar_types, vec!["f32".to_string(), "[i32; 3]".to_string()]);
    assert_eq!(plan.first_array_name, "particles");
    assert!(plan.has_push_constants);
    assert_eq!(plan.workgroup_size, WORKGROUP_SIZE_X);
}

#[test]
fn wrapper_plan_without_scalars_has_no_push_constants() {
    let f = ParsedFunction {
        name: "clear".to_string(),
        shader_type: ShaderType::Compute,
        params: vec![ParsedParam::Array("data".to_string(), "Cell".to_string())],
        block: vec![],
        return_type: None,
    };
    let plan = plan_rust_wrapper(&f);
    assert!(!plan.has_push_constants);
    assert!(plan.scalar_types.is_empty());
}

#[test]
fn rust_type_spellings() {
    assert_eq!(map_field_type_to_rust_type(&FieldType::Uint), "u32");
    assert_eq!(map_field_type_to_rust_type(&FieldType::Float4), "[f32; 4]");
    assert_eq!(map_field_type_to_rust_type(&FieldType::Int2), "[i32; 2]");
    assert_eq!(map_field_type_to_rust_type(&FieldType::Custom("Foo".to_string())), "Foo");
}

#[test]
fn dispatch_rounds_elements_up_to_whole_workgroups() {
    assert_eq!(WORKGROUP_SIZE_X, 64);
    assert_eq!(dispatch_group_count(0, 64), 0);
    assert_eq!(dispatch_group_count(1, 64), 1);
    assert_eq!(dispatch_group_count(64, 64), 1);
    assert_eq!(dispatch_group_count(65, 64), 2);
    assert_eq!(dispatch_group_count(1_000_000, 64), 15_625);
    assert_eq!(dispatch_group_count(u32::MAX - 63, 64), 67_108_863);
    assert_eq!(dispatch_group_count(u32::MAX - 64, 64), 67_108_863);
}
