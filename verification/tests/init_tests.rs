use clu::init::{generate_toml, ConfigValues};

#[test]
fn test_generate_toml_with_webhook() {
    let config = ConfigValues {
        feed_endpoint: "https://pypi.org/rss/packages.xml".to_string(),
        popular_packages_endpoint: "https://example.com/popular.json".to_string(),
        poll_interval: "30s".to_string(),
        check_updates: false,
        llm_endpoint: "http://ollama:11434".to_string(),
        llm_model: "llama2".to_string(),
        llm_request_timeout: 30,
        pip_cache_dir: "/tmp/pip-cache".to_string(),
        typosquat_threshold: 2,
        min_package_length: 4,
        webhook: Some("https://webhook.site/test".to_string()),
        log_level: "info".to_string(),
        enable_tui: true,
        heuristics_enabled: true,
        typosquat_enabled: true,
        guarddog_enabled: true,
        llm_enabled: true,
        quarantine_enabled: true,
        quarantine_dir: "/tmp/clu-quarantine".to_string(),
        quarantine_min_severity: 5,
        quarantine_max_age_days: 3,
        quarantine_max_disk_mb: 1024,
        quarantine_retain_metadata: true,
        notifications_enabled: true,
        discord_webhook: Some("https://discord.com/api/webhooks/test".to_string()),
        slack_webhook: Some("https://hooks.slack.com/services/test".to_string()),
        generic_webhook: None,
        notifications_min_severity: 13,
        notifications_timeout_secs: 10,
    };

    let toml = generate_toml(&config);

    assert!(toml.contains("endpoint = \"https://pypi.org/rss/packages.xml\""));
    assert!(toml.contains("webhook = \"https://webhook.site/test\""));
    assert!(toml.contains("log_level = \"info\""));
    assert!(toml.contains("heuristics = true"));
    assert!(toml.contains("typosquat = true"));
    assert!(toml.contains("guarddog = true"));
    assert!(toml.contains("llm = true"));
    assert!(toml.contains("[notifications]"));
    assert!(toml.contains("enabled = true"));
    assert!(toml.contains("discord_webhook = \"https://discord.com/api/webhooks/test\""));
    assert!(toml.contains("slack_webhook = \"https://hooks.slack.com/services/test\""));
    assert!(toml.contains("# generic_webhook ="));
    assert!(toml.contains("min_severity = 13"));
    assert!(toml.contains("timeout_secs = 10"));
}

#[test]
fn test_generate_toml_without_webhook() {
    let config = ConfigValues {
        feed_endpoint: "https://pypi.org/rss/packages.xml".to_string(),
        popular_packages_endpoint: "https://example.com/popular.json".to_string(),
        poll_interval: "1m".to_string(),
        check_updates: true,
        llm_endpoint: "http://ollama:11434".to_string(),
        llm_model: "llama2".to_string(),
        llm_request_timeout: 30,
        pip_cache_dir: "/tmp/pip-cache".to_string(),
        typosquat_threshold: 2,
        min_package_length: 4,
        webhook: None,
        log_level: "debug".to_string(),
        enable_tui: false,
        heuristics_enabled: true,
        typosquat_enabled: true,
        guarddog_enabled: false,
        llm_enabled: false,
        quarantine_enabled: false,
        quarantine_dir: "/tmp/clu-quarantine".to_string(),
        quarantine_min_severity: 5,
        quarantine_max_age_days: 3,
        quarantine_max_disk_mb: 1024,
        quarantine_retain_metadata: true,
        notifications_enabled: false,
        discord_webhook: None,
        slack_webhook: None,
        generic_webhook: None,
        notifications_min_severity: 13,
        notifications_timeout_secs: 10,
    };

    let toml = generate_toml(&config);

    assert!(toml.contains("# webhook ="));
    let has_active_webhook = toml
        .lines()
        .any(|line| line.starts_with("webhook = \"") && !line.starts_with("# webhook"));
    assert!(!has_active_webhook);
    assert!(toml.contains("check_updates = true"));
    assert!(toml.contains("enable_tui = false"));
    assert!(toml.contains("typosquat = true"));
    assert!(toml.contains("guarddog = false"));
    assert!(toml.contains("llm = false"));
    assert!(toml.contains("[notifications]"));
    assert!(toml.contains("enabled = false"));
    assert!(toml.contains("# discord_webhook ="));
    assert!(toml.contains("# slack_webhook ="));
    assert!(toml.contains("# generic_webhook ="));
    assert!(toml.contains("min_severity = 13"));
    assert!(toml.contains("timeout_secs = 10"));
}

#[test]
fn test_generate_toml_with_discord_notification() {
    let config = ConfigValues {
        feed_endpoint: "https://pypi.org/rss/packages.xml".to_string(),
        popular_packages_endpoint: "https://example.com/popular.json".to_string(),
        poll_interval: "30s".to_string(),
        check_updates: false,
        llm_endpoint: "http://ollama:11434".to_string(),
        llm_model: "qwen2.5-coder:7b".to_string(),
        llm_request_timeout: 30,
        pip_cache_dir: "/tmp/pip-cache".to_string(),
        typosquat_threshold: 2,
        min_package_length: 4,
        webhook: None,
        log_level: "info".to_string(),
        enable_tui: true,
        heuristics_enabled: true,
        typosquat_enabled: true,
        guarddog_enabled: false,
        llm_enabled: false,
        quarantine_enabled: true,
        quarantine_dir: "/tmp/clu-quarantine".to_string(),
        quarantine_min_severity: 5,
        quarantine_max_age_days: 3,
        quarantine_max_disk_mb: 1024,
        quarantine_retain_metadata: true,
        notifications_enabled: true,
        discord_webhook: Some("https://discord.com/api/webhooks/123456789/abcdef".to_string()),
        slack_webhook: None,
        generic_webhook: None,
        notifications_min_severity: 13,
        notifications_timeout_secs: 15,
    };

    let toml = generate_toml(&config);

    assert!(toml.contains("[notifications]"));
    assert!(toml.contains("enabled = true"));
    assert!(toml.contains("discord_webhook = \"https://discord.com/api/webhooks/123456789/abcdef\""));
    assert!(toml.contains("# slack_webhook ="));
    assert!(toml.contains("# generic_webhook ="));
    assert!(toml.contains("min_severity = 13"));
    assert!(toml.contains("timeout_secs = 15"));

    let has_active_slack = toml
        .lines()
        .any(|line| line.starts_with("slack_webhook = \"") && !line.starts_with("#"));
    let has_active_generic = toml
        .lines()
        .any(|line| line.starts_with("generic_webhook = \"") && !line.starts_with("#"));
    assert!(!has_active_slack);
    assert!(!has_active_generic);
}
