use enki::intrinsic::{map_rust_constant_to_slang, map_rust_function_to_slang, map_rust_method_to_slang};

fn s(v: &[&str]) -> Vec<String> {
    v.iter().map(|x| x.to_string()).collect()
}

#[test]
fn unary_methods_keep_their_name_except_ln() {
    assert_eq!(map_rust_method_to_slang("sqrt", "x", &[]), Some("sqrt(x)".to_string()));
    assert_eq!(map_rust_method_to_slang("ln", "(a + b)", &[]), Some("log((a + b))".to_string()));
    assert_eq!(map_rust_method_to_slang("exp2", "y", &[]), Some("exp2(y)".to_string()));
}

#[test]
fn binary_and_ternary_methods_need_their_argument_count() {
    assert_eq!(map_rust_method_to_slang("powf", "x", &s(&["2.0"])), Some("pow(x, 2.0)".to_string()));
    assert_eq!(map_rust_method_to_slang("powi", "x", &s(&["3"])), Some("pow(x, 3)".to_string()));
    assert_eq!(map_rust_method_to_slang("max", "a", &s(&["b"])), Some("max(a, b)".to_string()));
    assert_eq!(map_rust_method_to_slang("clamp", "v", &s(&["0.0", "1.0"])), Some("clamp(v, 0.0, 1.0)".to_string()));
    assert_eq!(map_rust_method_to_slang("clamp", "v", &s(&["0.0"])), None);
    assert_eq!(map_rust_method_to_slang("min", "v", &[]), None);
    assert_eq!(map_rust_method_to_slang("to_degrees", "v", &[]), None);
}

#[test]
fn free_functions_map_by_arity() {
    assert_eq!(map_rust_function_to_slang("dot", &s(&["a", "b"])), Some("dot(a, b)".to_string()));
    assert_eq!(map_rust_function_to_slang("mix", &s(&["a", "b", "t"])), Some("mix(a, b, t)".to_string()));
    assert_eq!(map_rust_function_to_slang("normalize", &s(&["v"])), Some("normalize(v)".to_string()));
    assert_eq!(map_rust_function_to_slang("log", &s(&["v"])), Some("log(v)".to_string()));
    assert_eq!(map_rust_function_to_slang("dot", &s(&["a"])), None);
    assert_eq!(map_rust_function_to_slang("atan2", &s(&["a", "b"])), None);
}

#[test]
fn constants_are_chosen_by_the_first_matching_name() {
    assert_eq!(map_rust_constant_to_slang("std::f32::consts::PI"), Some("3.14159265358979323846".to_string()));
    assert_eq!(map_rust_constant_to_slang("FRAC_1_PI"), Some("3.14159265358979323846".to_string()));
    assert_eq!(map_rust_constant_to_slang("consts::E"), Some("2.7182818284590452354".to_string()));
    assert_eq!(map_rust_constant_to_slang("TAU"), Some("6.28318530717958647692".to_string()));
    assert_eq!(map_rust_constant_to_slang("SQRT_2"), None);
}
