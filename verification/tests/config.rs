use love_unlimited::models::{HubConfig, NamedValue};

fn var(name: &str, value: &str) -> NamedValue {
    NamedValue { name: name.to_string(), value: value.to_string() }
}

#[test]
fn test_config_from_env() {
    let vars = vec![
        var("LOVE_UNLIMITED_ENABLED", "true"),
        var("LOVE_UNLIMITED_URL", "http://localhost:9003"),
        var("LOVE_UNLIMITED_KEY", "test_key"),
    ];
    let config = HubConfig::from_env_vars(&vars);
    assert!(config.enabled);
    assert_eq!(config.hub_url, "http://localhost:9003");
    assert_eq!(config.api_key, "test_key");
}

#[test]
fn test_config_disabled() {
    let config = HubConfig::disabled();
    assert!(!config.enabled);
}

#[test]
fn disabled_config_fields() {
    let config = HubConfig::disabled();
    assert_eq!(config.hub_url, "");
    assert_eq!(config.api_key, "");
    assert_eq!(config.timeout_secs, 5);
    assert_eq!(config.max_retries, 3);
    assert!(config.features.log_completions);
    assert!(config.features.log_user_events);
    assert!(config.features.track_errors);
    assert!(!config.features.enrich_context);
}

#[test]
fn empty_environment_gives_documented_defaults() {
    let vars = vec![var("PATH", "/usr/bin"), var("HOME", "/root")];
    let config = HubConfig::from_env_vars(&vars);
    assert!(config.enabled);
    assert_eq!(config.hub_url, "http://localhost:9003");
    assert_eq!(config.api_key, "");
    assert_eq!(config.timeout_secs, 5);
    assert_eq!(config.max_retries, 3);
    assert!(config.features.log_completions);
    assert!(config.features.log_user_events);
    assert!(config.features.track_errors);
    assert!(!config.features.enrich_context);
}

#[test]
fn enabled_false_gives_disabled_config() {
    let vars = vec![
        var("LOVE_UNLIMITED_ENABLED", "false"),
        var("LOVE_UNLIMITED_URL", "http://hub:1"),
        var("LOVE_UNLIMITED_KEY", "k"),
        var("LOVE_UNLIMITED_TIMEOUT", "9"),
    ];
    let config = HubConfig::from_env_vars(&vars);
    assert!(!config.enabled);
    assert_eq!(config.hub_url, "");
    assert_eq!(config.api_key, "");
    assert_eq!(config.timeout_secs, 5);
    assert!(config.validate().is_ok());
}

#[test]
fn unparsable_enabled_counts_as_enabled() {
    let vars = vec![var("LOVE_UNLIMITED_ENABLED", "yes")];
    assert!(HubConfig::from_env_vars(&vars).enabled);
    let vars = vec![var("LOVE_UNLIMITED_ENABLED", "False")];
    assert!(HubConfig::from_env_vars(&vars).enabled);
}

#[test]
fn numbers_and_features_from_environment() {
    let vars = vec![
        var("LOVE_UNLIMITED_TIMEOUT", "+12"),
        var("LOVE_UNLIMITED_MAX_RETRIES", "7"),
        var("LOVE_UNLIMITED_LOG_COMPLETIONS", "false"),
        var("LOVE_UNLIMITED_LOG_USER_EVENTS", "nope"),
        var("LOVE_UNLIMITED_TRACK_ERRORS", "false"),
        var("LOVE_UNLIMITED_ENRICH_CONTEXT", "true"),
    ];
    let config = HubConfig::from_env_vars(&vars);
    assert_eq!(config.timeout_secs, 12);
    assert_eq!(config.max_retries, 7);
    assert!(!config.features.log_completions);
    assert!(config.features.log_user_events);
    assert!(!config.features.track_errors);
    assert!(config.features.enrich_context);
}

#[test]
fn bad_numbers_fall_back_to_defaults() {
    let vars = vec![
        var("LOVE_UNLIMITED_TIMEOUT", "-1"),
        var("LOVE_UNLIMITED_MAX_RETRIES", "4294967296"),
    ];
    let config = HubConfig::from_env_vars(&vars);
    assert_eq!(config.timeout_secs, 5);
    assert_eq!(config.max_retries, 3);
    let vars = vec![
        var("LOVE_UNLIMITED_TIMEOUT", "18446744073709551615"),
        var("LOVE_UNLIMITED_MAX_RETRIES", "4294967295"),
    ];
    let config = HubConfig::from_env_vars(&vars);
    assert_eq!(config.timeout_secs, u64::MAX);
    assert_eq!(config.max_retries, u32::MAX);
}

#[test]
fn first_variable_of_a_name_wins() {
    let vars = vec![var("LOVE_UNLIMITED_KEY", "first"), var("LOVE_UNLIMITED_KEY", "second")];
    assert_eq!(HubConfig::from_env_vars(&vars).api_key, "first");
}

#[test]
fn validate_reports_missing_url_and_key() {
    let mut config = HubConfig::from_env_vars(&vec![]);
    assert_eq!(config.validate(), Err("api_key is empty - set LOVE_UNLIMITED_KEY environment variable".to_string()));
    config.hub_url = String::new();
    assert_eq!(config.validate(), Err("hub_url is empty".to_string()));
    config.hub_url = "http://h".to_string();
    config.api_key = "k".to_string();
    assert_eq!(config.validate(), Ok(()));
    config.enabled = false;
    config.hub_url = String::new();
    assert_eq!(config.validate(), Ok(()));
}
