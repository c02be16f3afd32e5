use love_unlimited::metadata::MetaValue;
use love_unlimited::models::{Memory, RecallResponse, RememberRequest};
use love_unlimited::models::HubFeatures;
use love_unlimited::{HubClient, HubConfig, HubError, MemoryBridge};

fn bridge_with(features: HubFeatures) -> MemoryBridge {
    let mut config = HubConfig::disabled();
    config.enabled = true;
    config.hub_url = "http://localhost:9003".to_string();
    config.api_key = "k".to_string();
    config.features = features;
    MemoryBridge::new(HubClient::new(config).ok().unwrap())
}

fn bridge() -> MemoryBridge {
    bridge_with(HubFeatures::default())
}

#[test]
fn test_remember_request_building() {
    let req = RememberRequest::new("Test".to_string(), "learning".to_string());
    assert_eq!(req.memory_type, "learning");
    assert_eq!(req.content, "Test");
    assert!(req.private);
}

#[test]
fn new_request_defaults() {
    let req = RememberRequest::new("c".to_string(), "t".to_string());
    assert_eq!(req.significance, "medium");
    assert!(req.tags.is_empty());
    assert_eq!(req.metadata.len(), 0);
}

#[test]
fn completion_memory_short_prompt() {
    let r = bridge().store_completion(
        "python".to_string(),
        "def f():".to_string(),
        "return 1".to_string(),
        "tabby".to_string(),
        true,
    ).unwrap();
    assert_eq!(r.content, "Completion in python: def f():");
    assert_eq!(r.memory_type, "learning");
    assert_eq!(r.significance, "high");
    assert_eq!(r.tags, vec!["python".to_string(), "completion".to_string(), "tabby".to_string()]);
    assert!(r.private);
    assert_eq!(r.metadata.len(), 4);
    assert!(matches!(r.metadata.get("language"), Some(MetaValue::Text(s)) if s == "python"));
    assert!(matches!(r.metadata.get("prompt_length"), Some(MetaValue::Number(8))));
    assert!(matches!(r.metadata.get("completion_length"), Some(MetaValue::Number(8))));
    assert!(matches!(r.metadata.get("snippet_used"), Some(MetaValue::Flag(true))));
}

#[test]
fn completion_memory_without_snippet_is_medium() {
    let r = bridge().store_completion(String::new(), String::new(), String::new(), "m".to_string(), false).unwrap();
    assert_eq!(r.significance, "medium");
    assert_eq!(r.content, "Completion in : ");
}

#[test]
fn long_prompt_is_cut_to_200_bytes() {
    let prompt = "a".repeat(250);
    let r = bridge().store_completion("rust".to_string(), prompt.clone(), String::new(), "m".to_string(), false).unwrap();
    let expected = format!("Completion in rust: {}...", "a".repeat(197));
    assert_eq!(r.content, expected);
    assert!(matches!(r.metadata.get("prompt_length"), Some(MetaValue::Number(250))));
    let exact = "b".repeat(200);
    let r = bridge().store_completion("rust".to_string(), exact.clone(), String::new(), "m".to_string(), false).unwrap();
    assert_eq!(r.content, format!("Completion in rust: {}", exact));
}

#[test]
fn prompt_cut_never_splits_a_character() {
    // 150 two-byte characters: byte 197 falls inside a character.
    let prompt = "é".repeat(150);
    let r = bridge().store_completion("fr".to_string(), prompt, String::new(), "m".to_string(), false).unwrap();
    assert_eq!(r.content, format!("Completion in fr: {}...", "é".repeat(98)));
    assert!(matches!(r.metadata.get("prompt_length"), Some(MetaValue::Number(300))));
    // Four-byte characters: 49 of them fill 196 bytes.
    let prompt = "😀".repeat(60);
    let r = bridge().store_completion("x".to_string(), prompt, String::new(), "m".to_string(), false).unwrap();
    assert_eq!(r.content, format!("Completion in x: {}...", "😀".repeat(49)));
}

#[test]
fn features_switch_logging_off() {
    let off = HubFeatures { log_completions: false, log_user_events: false, track_errors: false, enrich_context: false };
    let b = bridge_with(off);
    assert!(b.store_completion("l".to_string(), "p".to_string(), String::new(), "m".to_string(), true).is_none());
    assert!(b.store_error("e".to_string(), None, None).is_none());
    assert!(b.store_user_selection("c".to_string(), String::new(), None).is_none());
    let only_errors = HubFeatures { log_completions: false, log_user_events: false, track_errors: true, enrich_context: false };
    let b = bridge_with(only_errors);
    assert!(b.store_error("e".to_string(), None, None).is_some());
    assert!(b.store_completion("l".to_string(), "p".to_string(), String::new(), "m".to_string(), true).is_none());
}

#[test]
fn bridge_clone_shares_the_client() {
    let b = bridge();
    let c = b.clone();
    assert_eq!(c.client().config().api_key, "k");
}

#[test]
fn long_unicode_prompt_is_cut_on_a_boundary() {
    // 197 ASCII bytes followed by two-byte characters: byte 197 is a boundary.
    let prompt = format!("{}{}", "x".repeat(197), "é".repeat(10));
    let r = bridge().store_completion("go".to_string(), prompt.clone(), String::new(), "m".to_string(), true).unwrap();
    assert_eq!(r.content, format!("Completion in go: {}...", "x".repeat(197)));
    assert!(matches!(r.metadata.get("prompt_length"), Some(MetaValue::Number(217))));
}

#[test]
fn error_memory_with_and_without_language() {
    let r = bridge().store_error("timeout".to_string(), Some("rust".to_string()), Some("ctx".to_string())).unwrap();
    assert_eq!(r.content, "Completion error in rust: timeout (context: ctx)");
    assert_eq!(r.memory_type, "insight");
    assert_eq!(r.significance, "high");
    assert_eq!(r.tags, vec!["error".to_string(), "completion-failure".to_string(), "rust".to_string()]);
    assert!(matches!(r.metadata.get("language"), Some(MetaValue::Text(s)) if s == "rust"));
    assert!(matches!(r.metadata.get("context"), Some(MetaValue::Text(s)) if s == "ctx"));
    assert!(r.private);
    let r = bridge().store_error("boom".to_string(), None, None).unwrap();
    assert_eq!(r.content, "Completion error in unknown: boom");
    assert_eq!(r.tags, vec!["error".to_string(), "completion-failure".to_string()]);
    assert_eq!(r.metadata.len(), 0);
}

#[test]
fn selection_memory_with_and_without_language() {
    let r = bridge().store_user_selection("cmpl-1".to_string(), "Selected".to_string(), Some("ts".to_string())).unwrap();
    assert_eq!(r.content, "User selected completion in ts");
    assert_eq!(r.memory_type, "decision");
    assert_eq!(r.significance, "medium");
    assert_eq!(r.tags, vec!["user-selection".to_string(), "ts".to_string()]);
    assert_eq!(r.metadata.len(), 3);
    assert!(matches!(r.metadata.get("completion_id"), Some(MetaValue::Text(s)) if s == "cmpl-1"));
    assert!(matches!(r.metadata.get("selected_length"), Some(MetaValue::Number(8))));
    let r = bridge().store_user_selection("c".to_string(), String::new(), None).unwrap();
    assert_eq!(r.content, "User selected completion in unknown");
    assert_eq!(r.tags, vec!["user-selection".to_string()]);
    assert_eq!(r.metadata.len(), 2);
}

#[test]
fn context_query_and_contents() {
    let q = MemoryBridge::recall_context(Some("rust".to_string()), 5);
    assert_eq!(q.q, "rust completions patterns insights");
    assert_eq!(q.limit, 5);
    assert!(q.type_.is_none());
    let q = MemoryBridge::recall_context(None, 2);
    assert_eq!(q.q, "completion patterns insights");
    let memory = |c: &str| Memory {
        memory_id: "id".to_string(),
        content: c.to_string(),
        timestamp: "t".to_string(),
        memory_type: "learning".to_string(),
        significance: "medium".to_string(),
        tags: vec![],
    };
    let response = RecallResponse { memories: vec![memory("one"), memory("two")], count: 2 };
    assert_eq!(MemoryBridge::contexts(&response), vec!["one".to_string(), "two".to_string()]);
}

#[test]
fn health_from_results() {
    assert!(MemoryBridge::health_check(Ok(true)));
    assert!(!MemoryBridge::health_check(Ok(false)));
    assert!(!MemoryBridge::health_check(Err(HubError::Timeout)));
}
