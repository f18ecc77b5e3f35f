use clu::analysis::yara_engine::{custom_rule_file_name, test_rule, RuleFile, YaraEngine};
use clu::feed::ecosystem::Ecosystem;

fn rule_file(source: &str, name: &str, content: &str) -> RuleFile {
    RuleFile {
        name: name.to_string(),
        source: source.to_string(),
        path: format!("rules/{}/{}.yar", source, name),
        content: content.to_string(),
    }
}

fn engine(files: &[RuleFile]) -> YaraEngine {
    let (engine, outcomes) = YaraEngine::from_rule_files(files, &[]);
    assert!(outcomes.iter().all(|o| o.is_none()), "{:?}", outcomes);
    engine
}

const EVIL: &str = r#"
rule detect_evil
{
    meta:
        severity = "critical"
        description = "Detects evil patterns"
        risk_score = 90
    strings:
        $evil = "EVIL_CODE"
    condition:
        $evil
}
"#;

#[test]
fn test_yara_engine_new_empty_dir() {
    let e = engine(&[]);
    assert!(e.list_rules().is_empty(), "Empty rules dir should have no rules");
}

#[test]
fn test_yara_engine_loads_builtin_rules() {
    let e = engine(&[rule_file(
        "builtin",
        "test_builtin",
        r#"
rule test_builtin
{
    meta:
        severity = "high"
        description = "Built-in test rule"
        ecosystem = "pypi"
        risk_score = 75
    strings:
        $s = "evil_string"
    condition:
        $s
}
"#,
    )]);
    let rules = e.list_rules();
    assert_eq!(rules.len(), 1);
    assert_eq!(rules[0].name, "test_builtin");
    assert_eq!(rules[0].severity, "high");
    assert_eq!(rules[0].ecosystem, "pypi");
    assert_eq!(rules[0].risk_score, 75);
    assert_eq!(rules[0].source, "builtin");
    assert!(rules[0].enabled);
}

#[test]
fn test_yara_engine_loads_custom_rules() {
    let e = engine(&[rule_file(
        "custom",
        "my_custom_rule",
        r#"
rule my_custom_rule
{
    meta:
        severity = "medium"
        description = "My custom detection"
    strings:
        $a = "suspicious"
    condition:
        $a
}
"#,
    )]);
    let rules = e.list_rules();
    assert_eq!(rules.len(), 1);
    assert_eq!(rules[0].name, "my_custom_rule");
    assert_eq!(rules[0].source, "custom");
}

#[test]
fn test_yara_scan_match() {
    let e = engine(&[rule_file("builtin", "detect_evil", EVIL)]);
    let files = vec![("main.py".to_string(), "import os\nEVIL_CODE\nprint('hello')".to_string())];
    let result = e.scan_package(&files, Ecosystem::PyPI, None, None).unwrap();
    assert!(result.is_malicious, "Should detect evil pattern");
    assert!(result.risk_score > 0, "Risk score should be positive");
    assert_eq!(result.findings.len(), 1);
    assert_eq!(result.findings[0].rule_name, "detect_evil");
    assert_eq!(result.findings[0].severity, "critical");
    assert_eq!(result.findings[0].file, "main.py");
    assert_eq!(result.findings[0].risk_score, 90);
    assert_eq!(result.findings[0].strings_matched, vec!["$evil at line 2"]);
}

#[test]
fn test_yara_scan_no_match() {
    let e = engine(&[rule_file("builtin", "detect_evil", EVIL)]);
    let files = vec![("main.py".to_string(), "import os\nprint('hello')".to_string())];
    let result = e.scan_package(&files, Ecosystem::PyPI, None, None).unwrap();
    assert!(!result.is_malicious);
    assert_eq!(result.risk_score, 0);
    assert!(result.findings.is_empty());
}

#[test]
fn test_yara_ecosystem_filtering() {
    let e = engine(&[
        rule_file(
            "builtin",
            "pypi_only",
            r#"
rule pypi_only
{
    meta:
        severity = "high"
        description = "Only for PyPI"
        ecosystem = "pypi"
    strings:
        $s = "dangerous"
    condition:
        $s
}
"#,
        ),
        rule_file(
            "builtin",
            "all_ecosystems",
            r#"
rule all_ecosystems
{
    meta:
        severity = "medium"
        description = "All ecosystems"
        ecosystem = "all"
    strings:
        $s = "dangerous"
    condition:
        $s
}
"#,
        ),
    ]);
    let files = vec![("main.py".to_string(), "dangerous code".to_string())];
    let result_pypi = e.scan_package(&files, Ecosystem::PyPI, None, None).unwrap();
    assert_eq!(result_pypi.findings.len(), 2);
    let result_npm = e.scan_package(&files, Ecosystem::Npm, None, None).unwrap();
    assert_eq!(result_npm.findings.len(), 1);
    assert_eq!(result_npm.findings[0].rule_name, "all_ecosystems");
}

const CUSTOM: &str = r#"
rule custom_detection
{
    meta:
        severity = "high"
        description = "Custom rule"
    strings:
        $s = "bad_stuff"
    condition:
        $s
}
"#;

#[test]
fn test_yara_create_and_delete_custom_rule() {
    let e = engine(&[]);
    assert!(e.list_rules().is_empty());

    let file_name = custom_rule_file_name("custom_detection", CUSTOM).unwrap();
    assert_eq!(file_name, "custom_detection.yar");
    let files = vec![rule_file("custom", "custom_detection", CUSTOM)];
    let e = engine(&files);
    let rules = e.list_rules();
    assert_eq!(rules.len(), 1);
    assert_eq!(rules[0].name, "custom_detection");
    assert_eq!(rules[0].source, "custom");

    let scanned = vec![("main.py".to_string(), "bad_stuff here".to_string())];
    let result = e.scan_package(&scanned, Ecosystem::PyPI, None, None).unwrap();
    assert_eq!(result.findings.len(), 1);

    assert_eq!(e.delete_target("custom_detection"), Ok("rules/custom/custom_detection.yar".to_string()));
    let e = engine(&[]);
    assert!(e.list_rules().is_empty());
}

#[test]
fn test_yara_cannot_delete_builtin_rule() {
    let e = engine(&[rule_file(
        "builtin",
        "builtin_rule",
        r#"
rule builtin_rule
{
    meta:
        severity = "low"
        description = "Built-in"
    strings:
        $s = "test"
    condition:
        $s
}
"#,
    )]);
    let result = e.delete_target("builtin_rule");
    assert!(result.is_err(), "Should not be able to delete built-in rules");
    assert_eq!(result, Err("Cannot delete built-in rules".to_string()));
    assert_eq!(e.delete_target("nope"), Err("Rule not found".to_string()));
}

const TOGGLE: &str = r#"
rule toggle_rule
{
    meta:
        severity = "medium"
        description = "Toggle me"
    strings:
        $s = "target"
    condition:
        $s
}
"#;

#[test]
fn test_yara_enable_disable_rule() {
    let mut e = engine(&[rule_file("builtin", "toggle_rule", TOGGLE)]);
    assert!(e.get_rule("toggle_rule").unwrap().enabled);

    e.set_rule_enabled("toggle_rule", false).unwrap();
    assert!(!e.get_rule("toggle_rule").unwrap().enabled);

    let files = vec![("main.py".to_string(), "target found".to_string())];
    let result = e.scan_package(&files, Ecosystem::PyPI, None, None).unwrap();
    assert!(result.findings.is_empty(), "Disabled rule should not match");

    e.set_rule_enabled("toggle_rule", true).unwrap();
    let result = e.scan_package(&files, Ecosystem::PyPI, None, None).unwrap();
    assert_eq!(result.findings.len(), 1, "Re-enabled rule should match");
    assert_eq!(e.set_rule_enabled("missing", true), Err("Rule not found".to_string()));
}

#[test]
fn test_yara_test_rule() {
    let rule_content = r#"
rule test_match
{
    meta:
        severity = "medium"
        description = "Test rule"
    strings:
        $hello = "hello world"
    condition:
        $hello
}
"#;
    let matched = test_rule(rule_content, "hello world is great").unwrap();
    assert_eq!(matched, vec!["test_match"]);
    let no_match = test_rule(rule_content, "no match here").unwrap();
    assert!(no_match.is_empty());
}

#[test]
fn test_yara_test_rule_compilation_error() {
    let bad_rule = "rule bad { condition: nonexistent_thing }";
    let result = test_rule(bad_rule, "test data");
    assert!(result.is_err(), "Invalid YARA rule should fail compilation");
    assert!(result.unwrap_err().starts_with("Compilation error: "));
}

#[test]
fn test_yara_create_rule_compilation_error() {
    let bad_rule = "rule bad { condition: nonexistent }";
    let result = custom_rule_file_name("bad_rule", bad_rule);
    assert!(result.is_err(), "Invalid YARA rule should fail creation");
    assert!(result.unwrap_err().starts_with("Rule compilation failed: "));
    assert!(custom_rule_file_name("../evil", CUSTOM).is_err());
}

#[test]
fn test_yara_risk_score_malicious_threshold() {
    let e = engine(&[rule_file(
        "builtin",
        "critical_rule",
        r#"
rule critical_rule
{
    meta:
        severity = "critical"
        description = "Critical detection"
        risk_score = 75
    strings:
        $s = "payload"
    condition:
        $s
}
"#,
    )]);
    let files = vec![("main.py".to_string(), "payload detected".to_string())];
    let result = e.scan_package(&files, Ecosystem::PyPI, None, None).unwrap();
    assert!(result.is_malicious, "risk_score=75 >= 70 should be malicious");
    assert!(result.findings.iter().any(|f| f.severity == "critical"));
}

#[test]
fn test_yara_max_file_size() {
    let e = engine(&[rule_file(
        "builtin",
        "big_target",
        r#"
rule big_target
{
    meta:
        severity = "low"
        description = "Matches anything"
    strings:
        $s = "x"
    condition:
        $s
}
"#,
    )]);
    let big_file = ("big.py".to_string(), "a".repeat(100));
    let result = e.scan_package(&[big_file], Ecosystem::PyPI, Some(10), None).unwrap();
    assert!(result.findings.is_empty(), "Oversized file should be skipped");
    let small_file = ("small.py".to_string(), "x".to_string());
    let result = e.scan_package(&[small_file], Ecosystem::PyPI, Some(10), None).unwrap();
    assert_eq!(result.findings.len(), 1, "Small file should match");
}

#[test]
fn test_yara_rules_state_persistence() {
    let files = vec![rule_file(
        "builtin",
        "persist_rule",
        r#"
rule persist_rule
{
    meta:
        severity = "medium"
        description = "Persistence test"
    strings:
        $s = "match"
    condition:
        $s
}
"#,
    )];
    let mut e = engine(&files);
    e.set_rule_enabled("persist_rule", false).unwrap();
    let disabled = e.disabled_rule_names();
    assert_eq!(disabled, vec!["persist_rule"]);
    let state: Vec<(String, bool)> = disabled.into_iter().map(|n| (n, false)).collect();
    let (e2, _) = YaraEngine::from_rule_files(&files, &state);
    let rule = e2.get_rule("persist_rule").unwrap();
    assert!(!rule.enabled, "Disabled state should persist across restarts");
}

#[test]
fn rejected_sources_are_reported_and_left_out() {
    let files = vec![
        rule_file("builtin", "broken", "rule broken { condition: nonexistent }"),
        rule_file("builtin", "detect_evil", EVIL),
    ];
    let (e, outcomes) = YaraEngine::from_rule_files(&files, &[]);
    assert!(outcomes[0].is_some());
    assert!(outcomes[1].is_none());
    let names: Vec<String> = e.list_rules().into_iter().map(|r| r.name).collect();
    assert_eq!(names, vec!["detect_evil"]);
}

#[test]
fn scan_reports_offsets_inside_characters_and_multibyte_lines() {
    let e = engine(&[rule_file(
        "builtin",
        "euro",
        r#"
rule euro
{
    strings:
        $e = { AC }
        $w = "w"
    condition:
        $e or $w
}
"#,
    )]);
    let files = vec![("a.py".to_string(), "\u{20ac}\nw".to_string())];
    let result = e.scan_package(&files, Ecosystem::Npm, None, Some(5)).unwrap();
    assert_eq!(result.findings.len(), 1);
    let f = &result.findings[0];
    assert_eq!(f.severity, "medium");
    assert_eq!(f.description, "euro");
    assert_eq!(f.strings_matched, vec!["$e at offset 2", "$w at line 2"]);
    assert!(!result.is_malicious);
}

const OTHER: &str = r#"
rule other_rule
{
    strings:
        $s = "OTHER"
    condition:
        $s
}
"#;

#[test]
fn saved_flags_survive_reload_and_toggles_touch_one_rule() {
    let files = vec![rule_file("custom", "detect_evil", EVIL), rule_file("custom", "other_rule", OTHER)];
    let mut e = engine(&files);
    assert!(e.list_rules().iter().all(|r| r.enabled));
    e.set_rule_enabled("other_rule", false).unwrap();
    assert!(!e.get_rule("other_rule").unwrap().enabled);
    assert!(e.get_rule("detect_evil").unwrap().enabled);
    let state: Vec<(String, bool)> = e.disabled_rule_names().into_iter().map(|n| (n, false)).collect();
    assert_eq!(state, vec![("other_rule".to_string(), false)]);
    let (reloaded, _) = YaraEngine::from_rule_files(&files, &state);
    assert!(!reloaded.get_rule("other_rule").unwrap().enabled);
    assert!(reloaded.get_rule("detect_evil").unwrap().enabled);
    assert_eq!(e.set_rule_enabled("missing", true), Err("Rule not found".to_string()));
}
