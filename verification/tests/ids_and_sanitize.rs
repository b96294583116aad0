use cerebro_core::ids::{generate_id, rand_suffix};
use cerebro_core::sanitize::{model_local_dir, sanitize_dir_component};

#[test]
fn generate_id_renders_decimal_and_hex() {
    assert_eq!(generate_id(1234, 255), "gen-1234-ff");
    assert_eq!(generate_id(0, 0), "gen-0-0");
    assert_eq!(generate_id(1700000000123, 0xdeadbeef), "gen-1700000000123-deadbeef");
}

#[test]
fn generate_id_is_nonempty_and_distinct_across_readings() {
    let a = generate_id(10, 1);
    let b = generate_id(10, 2);
    let c = generate_id(11, 1);
    assert!(!a.is_empty());
    assert_ne!(a, b);
    assert_ne!(a, c);
    assert_ne!(b, c);
}

#[test]
fn rand_suffix_is_lowercase_hex() {
    assert_eq!(rand_suffix(255), "ff");
    assert_eq!(rand_suffix(0), "0");
    assert_eq!(rand_suffix(0x1a2b3c4d), "1a2b3c4d");
}

#[test]
fn sanitize_replaces_unsafe_characters() {
    assert_eq!(sanitize_dir_component("org/name@v1!"), "org_name_v1_");
}

#[test]
fn sanitize_keeps_safe_characters() {
    assert_eq!(sanitize_dir_component("abc-DEF_1.2"), "abc-DEF_1.2");
}

#[test]
fn sanitize_empty_input_yields_placeholder() {
    assert_eq!(sanitize_dir_component(""), "model");
}

#[test]
fn sanitize_output_is_always_safe_and_nonempty() {
    for input in ["", "///", "a b c", "é€", "x"] {
        let out = sanitize_dir_component(input);
        assert!(!out.is_empty());
        assert!(out.chars().all(|c| c.is_ascii_alphanumeric() || c == '-' || c == '_' || c == '.'));
    }
}

#[test]
fn model_local_dir_joins_base_models_and_sanitized_name() {
    assert_eq!(model_local_dir("/data/app", "org/name"), "/data/app/models/org_name");
    assert_eq!(model_local_dir("/data/app", ""), "/data/app/models/model");
}

#[test]
fn greet_formats_the_name() {
    assert_eq!(cerebro_core::greet("World"), "Hello, World! You've been greeted from Rust!");
}
