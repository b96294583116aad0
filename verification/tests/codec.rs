use cerebro_core::codec::{
    encode_cancel, encode_download, encode_download_cancel, encode_generate, encode_shutdown,
};

#[test]
fn generate_round_trips_through_generic_json() {
    let line = encode_generate("gen-1-2", "/data/models/org_name", "Say hi", 256, 200);
    let v: serde_json::Value = serde_json::from_str(&line).unwrap();
    let obj = v.as_object().unwrap();
    assert_eq!(obj.len(), 6);
    assert_eq!(v.get("type").unwrap().as_str(), Some("generate"));
    assert_eq!(v.get("generation_id").unwrap().as_str(), Some("gen-1-2"));
    assert_eq!(v.get("model").unwrap().as_str(), Some("/data/models/org_name"));
    assert_eq!(v.get("prompt").unwrap().as_str(), Some("Say hi"));
    assert_eq!(v.get("max_new_tokens").unwrap().as_u64(), Some(256));
    assert_eq!(v.get("temperature").unwrap().as_f64(), Some(0.2));
}

#[test]
fn generate_escapes_prompt_text() {
    let prompt = "a \"quoted\" \\ backslash\nnewline\ttab\rret \u{8}\u{c}\u{1} end é";
    let line = encode_generate("id", "m", prompt, 1, 999);
    let v: serde_json::Value = serde_json::from_str(&line).unwrap();
    assert_eq!(v.get("prompt").unwrap().as_str(), Some(prompt));
    assert_eq!(v.get("temperature").unwrap().as_f64(), Some(0.999));
}

#[test]
fn cancel_line_is_exact() {
    assert_eq!(
        encode_cancel("gen-9-a"),
        "{\"type\":\"cancel\",\"generation_id\":\"gen-9-a\"}"
    );
}

#[test]
fn cancel_round_trips_through_generic_json() {
    let line = encode_cancel("gen-9-a");
    let v: serde_json::Value = serde_json::from_str(&line).unwrap();
    let obj = v.as_object().unwrap();
    assert_eq!(obj.len(), 2);
    assert_eq!(v.get("type").unwrap().as_str(), Some("cancel"));
    assert_eq!(v.get("generation_id").unwrap().as_str(), Some("gen-9-a"));
}

#[test]
fn download_round_trips_with_optional_fields_present() {
    let line = encode_download("gen-3-f", "org/name", Some("main"), "/models/org_name", Some("tok"));
    let v: serde_json::Value = serde_json::from_str(&line).unwrap();
    let obj = v.as_object().unwrap();
    assert_eq!(obj.len(), 6);
    assert_eq!(v.get("type").unwrap().as_str(), Some("download"));
    assert_eq!(v.get("download_id").unwrap().as_str(), Some("gen-3-f"));
    assert_eq!(v.get("repo_id").unwrap().as_str(), Some("org/name"));
    assert_eq!(v.get("revision").unwrap().as_str(), Some("main"));
    assert_eq!(v.get("local_dir").unwrap().as_str(), Some("/models/org_name"));
    assert_eq!(v.get("token").unwrap().as_str(), Some("tok"));
}

#[test]
fn download_absent_options_serialize_as_null() {
    let line = encode_download("d", "r", None, "l", None);
    let v: serde_json::Value = serde_json::from_str(&line).unwrap();
    assert!(v.get("revision").unwrap().is_null());
    assert!(v.get("token").unwrap().is_null());
    let obj = v.as_object().unwrap();
    assert_eq!(obj.len(), 6);
}

#[test]
fn download_cancel_round_trips_through_generic_json() {
    let line = encode_download_cancel("gen-7-1c");
    let v: serde_json::Value = serde_json::from_str(&line).unwrap();
    let obj = v.as_object().unwrap();
    assert_eq!(obj.len(), 2);
    assert_eq!(v.get("type").unwrap().as_str(), Some("download_cancel"));
    assert_eq!(v.get("download_id").unwrap().as_str(), Some("gen-7-1c"));
}

#[test]
fn shutdown_line_is_exact_and_valid_json() {
    let line = encode_shutdown();
    assert_eq!(line, "{\"type\":\"shutdown\"}");
    let v: serde_json::Value = serde_json::from_str(&line).unwrap();
    assert_eq!(v.get("type").unwrap().as_str(), Some("shutdown"));
    assert_eq!(v.as_object().unwrap().len(), 1);
}

#[test]
fn temperature_thousandths_render_with_three_decimals() {
    let line = encode_generate("i", "m", "p", 7, 1250);
    let v: serde_json::Value = serde_json::from_str(&line).unwrap();
    assert_eq!(v.get("temperature").unwrap().as_f64(), Some(1.25));
    assert_eq!(v.get("max_new_tokens").unwrap().as_u64(), Some(7));
    let zero = encode_generate("i", "m", "p", 7, 0);
    let vz: serde_json::Value = serde_json::from_str(&zero).unwrap();
    assert_eq!(vz.get("temperature").unwrap().as_f64(), Some(0.0));
}
