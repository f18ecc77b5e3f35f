use clu::pipeline::{duration_fits, llm_stage_step, LlmAction, LlmStage, LlmStageEvent};
use clu::analysis::typosquat::{calculate_risk_score, find_typosquats};
use clu::feed::ecosystem::{Ecosystem, PackageRef};
use clu::feed::pypi::PythonPackage;
use clu::analysis::heuristics::{HeuristicRule, HeuristicRules};
use clu::config::{
    AnalysisConfig, CacheConfig, Config, DatabaseConfig, ExtractionConfig, FeedConfig, LlmConfig,
    NotificationsConfig, OutputConfig, PipelineConfig, QuarantineConfig, SidecarConfig, YaraConfig,
};
use clu::pipeline::{
    final_verdict, is_stage_enabled, log_level_for, parse_duration, resolve_watch_options,
    run_heuristics_stage, select_new_packages, LogLevel,
};

#[test]
fn test_is_stage_enabled() {
    assert!(is_stage_enabled(None));
    assert!(is_stage_enabled(Some(true)));
    assert!(!is_stage_enabled(Some(false)));
}

#[test]
fn test_final_verdict() {
    let v = final_verdict(Some(4), 10);
    assert_eq!((v.severity, v.is_malicious, v.recommendation.as_str()), (4, false, "IGNORE"));
    let v = final_verdict(Some(6), 0);
    assert_eq!((v.severity, v.is_malicious, v.recommendation.as_str()), (6, true, "INSPECT"));
    let v = final_verdict(None, 0);
    assert_eq!((v.severity, v.is_malicious, v.recommendation.as_str()), (1, false, "IGNORE"));
    let v = final_verdict(None, 2);
    assert_eq!((v.severity, v.is_malicious, v.recommendation.as_str()), (6, false, "INSPECT"));
    let v = final_verdict(None, 4);
    assert_eq!((v.severity, v.is_malicious, v.recommendation.as_str()), (12, true, "INSPECT"));
}

#[test]
fn test_parse_duration() {
    assert_eq!(parse_duration("30s"), Ok(30));
    assert_eq!(parse_duration(" 5m "), Ok(300));
    assert_eq!(parse_duration("2hours"), Ok(7200));
    assert_eq!(parse_duration("45"), Ok(45));
    assert_eq!(parse_duration(""), Err("Empty duration string".to_string()));
    assert_eq!(parse_duration("m5"), Err("No number found in 'm5'".to_string()));
    assert_eq!(parse_duration("5d"), Err("Unknown unit: 'd'. Use s, m, or h".to_string()));
    assert_eq!(
        parse_duration("99999999999999999999s"),
        Err("Invalid number: '99999999999999999999'".to_string())
    );
}

fn pp(title: Option<&str>) -> PythonPackage {
    PythonPackage { title: title.map(|s| s.to_string()), link: None, description: None, author: None, published_date: None }
}

#[test]
fn test_select_new_packages() {
    let seen = vec!["old".to_string()];
    let out = select_new_packages(vec![pp(Some("old")), pp(None), pp(Some("new"))], &seen);
    assert_eq!(out.len(), 1);
    assert_eq!(out[0].title, Some("new".to_string()));
}

fn pref(title: Option<&str>) -> PackageRef {
    PackageRef {
        ecosystem: Ecosystem::PyPI,
        name: title.unwrap_or("").to_string(),
        version: None,
        title: title.map(|s| s.to_string()),
        description: None,
        link: None,
        author: None,
        published_date: None,
    }
}

#[test]
fn test_typosquat_detection() {
    let popular = vec!["requests".to_string(), "numpy".to_string()];
    let found = find_typosquats(&[pref(Some("reqeusts")), pref(Some("requests")), pref(Some("np")), pref(None)], &popular, 2, 4);
    assert_eq!(found.len(), 1);
    assert_eq!(found[0].legit_package_name, "requests");
    assert_eq!(found[0].distance, 2);
    assert_eq!(found[0].risk_score, 75);
    assert_eq!(found[0].evidence, "'reqeusts' differs by 2 character(s) from 'requests'");
    assert_eq!(calculate_risk_score(1), 90);
    assert_eq!(calculate_risk_score(3), 60);
    assert_eq!(calculate_risk_score(7), 40);
}

fn config(endpoint: &str, interval: &str, check_updates: bool) -> Config {
    Config {
        feed: FeedConfig {
            poll_interval: interval.to_string(),
            endpoint: endpoint.to_string(),
            popular_packages_endpoint: "https://example.com/top.json".to_string(),
            check_updates,
        },
        llm: LlmConfig {
            endpoint: "http://ollama:11434".to_string(),
            model: "m".to_string(),
            request_timeout: 30,
        },
        analysis: AnalysisConfig { typosquat_distance_threshold: 2, min_package_length: 4 },
        output: OutputConfig { webhook: None, log_level: "WARN".to_string(), enable_tui: true },
        cache: CacheConfig::default(),
        pipeline: PipelineConfig::default(),
        database: DatabaseConfig::default(),
        extraction: ExtractionConfig::default(),
        yara: YaraConfig::default(),
        quarantine: QuarantineConfig::default(),
        notifications: NotificationsConfig::default(),
        sidecar: SidecarConfig::default(),
    }
}

#[test]
fn watch_options_prefer_cli_then_config() {
    let cfg = config("https://feed.example/rss", "5m", true);
    let o = resolve_watch_options(Some("https://cli.example"), None, false, Some(&cfg));
    assert_eq!(o.url, "https://cli.example");
    assert_eq!(o.poll_interval, "5m");
    assert!(o.check_updates);
    let d = resolve_watch_options(None, Some("10s"), false, None);
    assert_eq!(d.url, "https://pypi.org/rss/packages.xml");
    assert_eq!(d.poll_interval, "10s");
    assert!(!d.check_updates);
    assert!(resolve_watch_options(None, None, true, None).check_updates);
    assert_eq!(resolve_watch_options(None, None, false, None).poll_interval, "30s");
}

#[test]
fn log_levels_by_name() {
    assert_eq!(log_level_for(Some("DEBUG")), LogLevel::Debug);
    assert_eq!(log_level_for(Some("warn")), LogLevel::Warn);
    assert_eq!(log_level_for(Some("Error")), LogLevel::Error);
    assert_eq!(log_level_for(Some("verbose")), LogLevel::Info);
    assert_eq!(log_level_for(None), LogLevel::Info);
    assert_eq!(log_level_for(Some(&config("", "", false).output.log_level)), LogLevel::Warn);
}

fn kw_rule(name: &str, keyword: &str) -> HeuristicRule {
    HeuristicRule {
        name: name.to_string(),
        rule_type: "keyword".to_string(),
        field: Some("description".to_string()),
        keywords: Some(vec![keyword.to_string()]),
        pattern: None,
        check: None,
        risk_score: 40,
        description: "d".to_string(),
    }
}

#[test]
fn heuristics_stage_applies_every_rule_in_order() {
    let pkg = PythonPackage {
        title: Some("x".to_string()),
        link: None,
        description: Some("base64 eval exec".to_string()),
        author: None,
        published_date: None,
    };
    let rules = Some(HeuristicRules {
        rules: vec![kw_rule("a", "exec"), kw_rule("b", "absent"), kw_rule("c", "BASE64")],
    });
    let ms = run_heuristics_stage(&pkg, &rules, None);
    let names: Vec<&str> = ms.iter().map(|m| m.rule_name.as_str()).collect();
    assert_eq!(names, vec!["a", "c"]);
    assert!(run_heuristics_stage(&pkg, &rules, Some(false)).is_empty());
    assert!(run_heuristics_stage(&pkg, &None, Some(true)).is_empty());
}

#[test]
fn test_pipeline_config_default() {
    let config = PipelineConfig::default();
    assert!(config.heuristics);
    assert!(config.typosquat);
    assert!(!config.yara);
    assert!(!config.llm);
    assert!(!config.guarddog);
}

#[test]
fn test_yara_config_default() {
    let config = YaraConfig::default();
    assert_eq!(config.rules_dir, "config/yara_rules");
    assert!(config.max_file_size.is_none());
    assert!(config.timeout_secs.is_none());
}

#[test]
fn guarddog_switch_turns_yara_on() {
    let mut legacy = PipelineConfig::default();
    legacy.guarddog = true;
    let carried = legacy.with_guarddog_compat();
    assert!(carried.yara);
    assert!(carried.guarddog);
    assert!(carried.heuristics && carried.typosquat && !carried.llm);

    let plain = PipelineConfig::default().with_guarddog_compat();
    assert!(!plain.yara);
}

#[test]
fn service_defaults_are_off_and_loopback() {
    let q = QuarantineConfig::default();
    assert!(!q.enabled);
    assert_eq!(q.directory, "config/quarantine");
    assert_eq!((q.min_severity, q.max_age_days, q.max_disk_mb, q.retain_metadata), (13, 30, 1024, true));
    let n = NotificationsConfig::default();
    assert!(!n.enabled);
    assert_eq!((n.min_severity, n.timeout_secs), (13, 10));
    assert!(n.slack_webhook.is_none() && n.discord_webhook.is_none() && n.generic_webhook.is_none());
    let s = SidecarConfig::default();
    assert_eq!(s.listen_addr, "127.0.0.1:8080");
    assert_eq!(s.timeout_secs, 5);
    assert!(s.endpoint.is_none() && s.token.is_none());
}

#[test]
fn typosquat_reports_the_closest_popular_name() {
    let popular = vec!["request".to_string(), "requests".to_string()];
    let found = find_typosquats(&[pref(Some("requestss"))], &popular, 2, 4);
    assert_eq!(found.len(), 1);
    assert_eq!(found[0].legit_package_name, "requests");
    assert_eq!(found[0].distance, 1);
    assert_eq!(found[0].risk_score, 90);
    // On a tie the earlier name wins.
    let tie = vec!["abcdx".to_string(), "abcdy".to_string()];
    let found = find_typosquats(&[pref(Some("abcdz"))], &tie, 2, 4);
    assert_eq!(found[0].legit_package_name, "abcdx");
}

#[test]
fn llm_stage_gates_analysis_on_the_sentinel() {
    let (s, a) = llm_stage_step(LlmStage::Idle, LlmStageEvent::Start { enabled: true, source_available: true });
    assert!(matches!(s, LlmStage::AwaitingSentinel) && matches!(a, LlmAction::RunSentinel));
    let (s2, a2) = llm_stage_step(s, LlmStageEvent::SentinelReply(Ok(true)));
    assert!(matches!(s2, LlmStage::Finished) && matches!(a2, LlmAction::Finish(None)));
    let (_, a3) = llm_stage_step(LlmStage::AwaitingSentinel, LlmStageEvent::SentinelReply(Ok(false)));
    assert!(matches!(a3, LlmAction::RunAnalysis));
    let (_, a4) = llm_stage_step(LlmStage::AwaitingSentinel, LlmStageEvent::SentinelReply(Err("down".to_string())));
    assert!(matches!(a4, LlmAction::Finish(None)));
    let (_, a5) = llm_stage_step(LlmStage::Idle, LlmStageEvent::Start { enabled: false, source_available: true });
    assert!(matches!(a5, LlmAction::Finish(None)));
    let (_, a6) = llm_stage_step(LlmStage::AwaitingAnalysis, LlmStageEvent::AnalysisReply(Err("x".to_string())));
    assert!(matches!(a6, LlmAction::Finish(None)));
}

#[test]
fn duration_fits_tells_overflow_apart() {
    assert!(duration_fits("30s"));
    assert!(duration_fits("18446744073709551615s"));
    assert!(!duration_fits("18446744073709551615h"));
    assert!(duration_fits("5d"));
    assert!(duration_fits(""));
}
