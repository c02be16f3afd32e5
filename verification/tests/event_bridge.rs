use love_unlimited::event_bridge::HubEvent;
use love_unlimited::models::HubFeatures;
use love_unlimited::{HubClient, HubConfig, HubEventLogger, MemoryBridge};

#[test]
fn test_hub_event_logger_creation() {
    // This test just verifies creation doesn't panic
    let _logger = HubEventLogger::new_with_spawn;
    assert!(true);
}

fn bridge_with(features: HubFeatures) -> MemoryBridge {
    let mut config = HubConfig::disabled();
    config.enabled = true;
    config.hub_url = "http://localhost:9003".to_string();
    config.api_key = "k".to_string();
    config.features = features;
    MemoryBridge::new(HubClient::new(config).ok().unwrap())
}

fn bridge() -> MemoryBridge {
    bridge_with(HubFeatures::default())
}

fn logger() -> HubEventLogger {
    HubEventLogger::new(bridge())
}

#[test]
fn logger_keeps_its_bridge() {
    let logger = HubEventLogger::new(bridge());
    assert_eq!(logger.bridge().client().config().api_key, "k");
    let shared = logger.shared_bridge();
    assert_eq!(shared.client().config().hub_url, "http://localhost:9003");
}

#[test]
fn completion_event_stores_first_choice() {
    let event = HubEvent::Completion {
        completion_id: "c1".to_string(),
        language: "rust".to_string(),
        prompt: "fn main".to_string(),
        choices: vec!["() {}".to_string(), "other".to_string()],
    };
    let r = logger().memory_for(&event).unwrap();
    assert_eq!(r.content, "Completion in rust: fn main");
    assert_eq!(r.significance, "high");
    assert_eq!(r.tags, vec!["rust".to_string(), "completion".to_string(), "tabby".to_string()]);
    assert!(r.private);
}

#[test]
fn completion_event_without_choices_is_medium() {
    let event = HubEvent::Completion {
        completion_id: "c1".to_string(),
        language: "rust".to_string(),
        prompt: "p".to_string(),
        choices: vec![],
    };
    let r = logger().memory_for(&event).unwrap();
    assert_eq!(r.significance, "medium");
}

#[test]
fn select_event_stores_decision() {
    let r = logger().memory_for(&HubEvent::Select { completion_id: "c9".to_string() }).unwrap();
    assert_eq!(r.memory_type, "decision");
    assert_eq!(r.content, "User selected completion in unknown");
}

#[test]
fn other_events_store_nothing() {
    assert!(logger().memory_for(&HubEvent::View { completion_id: "c".to_string() }).is_none());
    assert!(logger().memory_for(&HubEvent::Dismiss { completion_id: "c".to_string() }).is_none());
    assert!(logger().memory_for(&HubEvent::ChatCompletion).is_none());
}

#[test]
fn feature_flags_decide_which_events_are_stored() {
    let completion = HubEvent::Completion {
        completion_id: "c1".to_string(),
        language: "rust".to_string(),
        prompt: "p".to_string(),
        choices: vec!["x".to_string()],
    };
    let select = HubEvent::Select { completion_id: "c1".to_string() };
    let no_completions = HubFeatures { log_completions: false, log_user_events: true, track_errors: true, enrich_context: false };
    let logger = HubEventLogger::new(bridge_with(no_completions));
    assert!(logger.memory_for(&completion).is_none());
    assert!(logger.memory_for(&select).is_some());
    let no_user_events = HubFeatures { log_completions: true, log_user_events: false, track_errors: true, enrich_context: false };
    let logger = HubEventLogger::new(bridge_with(no_user_events));
    assert!(logger.memory_for(&completion).is_some());
    assert!(logger.memory_for(&select).is_none());
}

#[test]
fn long_non_ascii_prompt_event_is_stored() {
    let event = HubEvent::Completion {
        completion_id: "c".to_string(),
        language: "ja".to_string(),
        prompt: "日本".repeat(50),
        choices: vec![],
    };
    let r = logger().memory_for(&event).unwrap();
    assert_eq!(r.content, format!("Completion in ja: {}...", "日本".repeat(32) + "日"));
}
