use cerebro_core::facade::{
    chat_cancel, chat_generate, choose_runner_script, model_download_cancel, model_download_start,
    FacadeError,
};
use cerebro_core::supervisor::Supervisor;

#[test]
fn stop_always_leaves_both_handles_absent() {
    let mut sup: Supervisor<u32, u32> = Supervisor::new();
    sup.install(7, 8);
    let (stdin, child) = sup.stop();
    assert_eq!(stdin, Some(8));
    assert_eq!(child, Some(7));
    // Both absent afterwards: a fresh spawn is needed again.
    assert!(sup.needs_spawn());
    // Stopping when nothing runs is a no-op.
    let (stdin2, child2) = sup.stop();
    assert_eq!(stdin2, None);
    assert_eq!(child2, None);
    assert!(sup.needs_spawn());
}

#[test]
fn ensure_running_twice_spawns_at_most_once() {
    let mut sup: Supervisor<u32, u32> = Supervisor::new();
    let mut spawns = 0;
    for _ in 0..2 {
        if sup.needs_spawn() {
            spawns += 1;
            sup.install(1, 2);
        }
    }
    assert_eq!(spawns, 1);
}

#[test]
fn detach_and_attach_lend_the_stream_for_one_write() {
    let mut sup: Supervisor<u32, u32> = Supervisor::new();
    assert_eq!(sup.detach_stdin(), None);
    sup.install(1, 2);
    let s = sup.detach_stdin();
    assert_eq!(s, Some(2));
    sup.attach_stdin(s.unwrap());
    assert!(!sup.needs_spawn());
}

#[test]
fn generate_without_local_model_fails_and_sends_nothing() {
    let r = chat_generate("/data/models/org_name", "hi", None, None, false, 5, 6);
    assert_eq!(r.err(), Some(FacadeError::ModelNotLocal));
}

#[test]
fn generate_with_local_model_returns_id_and_line() {
    let r = chat_generate("/data/models/org_name", "hi", None, None, true, 1234, 255).unwrap();
    assert_eq!(r.generation_id, "gen-1234-ff");
    let v: serde_json::Value = serde_json::from_str(&r.line).unwrap();
    assert_eq!(v.get("type").unwrap().as_str(), Some("generate"));
    assert_eq!(v.get("generation_id").unwrap().as_str(), Some("gen-1234-ff"));
    assert_eq!(v.get("model").unwrap().as_str(), Some("/data/models/org_name"));
    assert_eq!(v.get("prompt").unwrap().as_str(), Some("hi"));
    assert_eq!(v.get("max_new_tokens").unwrap().as_u64(), Some(256));
    assert_eq!(v.get("temperature").unwrap().as_f64(), Some(0.2));
}

#[test]
fn generate_ids_differ_across_distinct_clock_readings() {
    let a = chat_generate("m", "p", None, None, true, 10, 1).unwrap();
    let b = chat_generate("m", "p", None, None, true, 10, 2).unwrap();
    assert!(!a.generation_id.is_empty());
    assert_ne!(a.generation_id, b.generation_id);
}

#[test]
fn generate_honors_explicit_budget_and_temperature() {
    let r = chat_generate("m", "p", Some(32), Some(700), true, 1, 1).unwrap();
    let v: serde_json::Value = serde_json::from_str(&r.line).unwrap();
    assert_eq!(v.get("max_new_tokens").unwrap().as_u64(), Some(32));
    assert_eq!(v.get("temperature").unwrap().as_f64(), Some(0.7));
}

#[test]
fn cancel_lines_carry_the_ids() {
    assert_eq!(
        chat_cancel("gen-1-2"),
        "{\"type\":\"cancel\",\"generation_id\":\"gen-1-2\"}"
    );
    assert_eq!(
        model_download_cancel("gen-3-4"),
        "{\"type\":\"download_cancel\",\"download_id\":\"gen-3-4\"}"
    );
}

#[test]
fn download_start_resolves_destination_and_line() {
    let r = model_download_start("org/name@v1!", Some("main"), None, "/data/app", 7, 10);
    assert_eq!(r.download_id, "gen-7-a");
    assert_eq!(r.local_dir, "/data/app/models/org_name_v1_");
    let v: serde_json::Value = serde_json::from_str(&r.line).unwrap();
    assert_eq!(v.get("type").unwrap().as_str(), Some("download"));
    assert_eq!(v.get("download_id").unwrap().as_str(), Some("gen-7-a"));
    assert_eq!(v.get("repo_id").unwrap().as_str(), Some("org/name@v1!"));
    assert_eq!(v.get("revision").unwrap().as_str(), Some("main"));
    assert_eq!(v.get("local_dir").unwrap().as_str(), Some("/data/app/models/org_name_v1_"));
    assert!(v.get("token").unwrap().is_null());
}

#[test]
fn runner_script_prefers_the_development_tree() {
    assert_eq!(
        choose_runner_script("/repo/py/cerebro_runner.py", true, Some("/res")),
        Ok("/repo/py/cerebro_runner.py".to_string())
    );
    assert_eq!(
        choose_runner_script("/repo/py/cerebro_runner.py", false, Some("/res")),
        Ok("/res/py/cerebro_runner.py".to_string())
    );
    assert_eq!(
        choose_runner_script("/repo/py/cerebro_runner.py", false, None),
        Err(FacadeError::NotFound)
    );
}
