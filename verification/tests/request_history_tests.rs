use supervisor::api::results::{lookup_status, make_history, request_history_list, HistoryLookup};
use supervisor::strmap::StrMap;
use supervisor::structs::request_entry::{request_id_for, RequestEntry, Timestamp};

fn entry(deployment: &str, module: &str, function: &str) -> RequestEntry {
    RequestEntry::new(
        deployment.to_string(),
        module.to_string(),
        function.to_string(),
        "GET".to_string(),
        serde_json::Value::Null,
        StrMap::new(),
        Timestamp { secs: 1_700_000_000, nanos: 5 },
        0,
    )
}

#[test]
fn request_id_is_sha256_of_key_and_time_in_hex() {
    let id = request_id_for("dep1", "mod1", "fn1", "2024-05-01T10:00:00+00:00");
    assert_eq!(id, "ad35b5fdc95cba3be4d5482c3a0795b1f2e88b979366f11e53f44f32657d4d0a");
}

#[test]
fn request_id_changes_with_the_time() {
    let a = request_id_for("dep1", "mod1", "fn1", "2024-05-01T10:00:00+00:00");
    let b = request_id_for("dep1", "mod1", "fn1", "2024-05-01T10:00:01+00:00");
    assert_ne!(a, b);
}

#[test]
fn new_entry_is_pending_with_a_hex_id() {
    let mut files = StrMap::new();
    files.insert("input.png".to_string(), "/tmp/input.png".to_string());
    let e = RequestEntry::new(
        "dep1".to_string(),
        "mod1".to_string(),
        "fn1".to_string(),
        "POST".to_string(),
        serde_json::Value::Bool(true),
        files,
        Timestamp { secs: 12, nanos: 34 },
        3,
    );
    assert_eq!(e.request_id.len(), 64);
    assert!(e.request_id.chars().all(|c| c.is_ascii_digit() || ('a'..='f').contains(&c)));
    assert_eq!(e.deployment_id, "dep1");
    assert_eq!(e.module_name, "mod1");
    assert_eq!(e.function_name, "fn1");
    assert_eq!(e.method, "POST");
    assert_eq!(e.request_args, serde_json::Value::Bool(true));
    assert_eq!(e.request_files.get("input.png").map(|s| s.as_str()), Some("/tmp/input.png"));
    assert_eq!(e.work_queued_at.secs, 12);
    assert_eq!(e.work_queued_at.nanos, 34);
    assert!(e.result.is_none());
    assert!(e.outputs.is_empty());
    assert!(!e.success);
    assert_eq!(e.step_index, 3);
}

#[test]
fn empty_id_asks_for_the_whole_history() {
    let history = vec![entry("d", "m", "f")];
    assert_eq!(request_history_list(&history, ""), HistoryLookup::All);
}

#[test]
fn recorded_success_is_found_with_status_200() {
    let mut history = Vec::new();
    let e = entry("d", "m", "f");
    let id = e.request_id.clone();
    let out = make_history(&mut history, e, Ok(serde_json::Value::from(42)));
    assert_eq!(out, Some(serde_json::Value::from(42)));
    assert_eq!(history.len(), 1);
    assert!(history[0].success);
    assert_eq!(request_history_list(&history, &id), HistoryLookup::Found { index: 0, status: 200 });
}

#[test]
fn recorded_failure_keeps_the_error_and_is_found_with_status_500() {
    let mut history = Vec::new();
    let first = entry("d", "m", "f");
    let mut second = entry("d", "m", "g");
    second.request_id = "abc".to_string();
    make_history(&mut history, first, Ok(serde_json::Value::Null));
    let out = make_history(&mut history, second, Err("Deployment 'd' not found".to_string()));
    assert_eq!(out, None);
    assert!(!history[1].success);
    assert_eq!(
        history[1].result,
        Some(serde_json::Value::String("Deployment 'd' not found".to_string()))
    );
    assert_eq!(request_history_list(&history, "abc"), HistoryLookup::Found { index: 1, status: 500 });
}

#[test]
fn unknown_id_is_missing() {
    let mut history = Vec::new();
    make_history(&mut history, entry("d", "m", "f"), Ok(serde_json::Value::Null));
    assert_eq!(request_history_list(&history, "123"), HistoryLookup::Missing);
}

#[test]
fn first_entry_with_an_id_is_the_one_found() {
    let mut a = entry("d", "m", "f");
    a.request_id = "same".to_string();
    let mut b = entry("d", "m", "f");
    b.request_id = "same".to_string();
    let mut history = Vec::new();
    make_history(&mut history, a, Err("boom".to_string()));
    make_history(&mut history, b, Ok(serde_json::Value::Null));
    assert_eq!(request_history_list(&history, "same"), HistoryLookup::Found { index: 0, status: 500 });
}

#[test]
fn api_test_request_history_list_with_id() {
    let history: Vec<RequestEntry> = Vec::new();
    let lookup = request_history_list(&history, "123");
    assert_eq!(lookup, HistoryLookup::Missing);
    assert_eq!(lookup_status(lookup), 200);
}

#[test]
fn api_test_request_history_list_without_id() {
    let history: Vec<RequestEntry> = Vec::new();
    let lookup = request_history_list(&history, "");
    assert_eq!(lookup, HistoryLookup::All);
    assert_eq!(lookup_status(lookup), 200);
}

#[test]
fn failed_request_is_served_with_500() {
    let mut history = Vec::new();
    make_history(&mut history, entry("d", "m", "f"), Err("boom".to_string()));
    let id = history[0].request_id.clone();
    assert_eq!(lookup_status(request_history_list(&history, &id)), 500);
}
