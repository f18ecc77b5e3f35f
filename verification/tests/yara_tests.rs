use clu::analysis::yara::{
    byte_offset_to_line, calculate_yara_risk_score, check_deletable, check_rule_name, match_location,
    parse_rule_metadata, rule_match, scan_result, severity_to_risk_score, YaraRuleInfo,
};
use clu::feed::ecosystem::Ecosystem;
use clu::output::YaraMatch;

#[test]
fn test_severity_to_risk_score() {
    assert_eq!(severity_to_risk_score("critical"), 30);
    assert_eq!(severity_to_risk_score("high"), 20);
    assert_eq!(severity_to_risk_score("medium"), 10);
    assert_eq!(severity_to_risk_score("low"), 5);
    assert_eq!(severity_to_risk_score("unknown"), 10);
}

#[test]
fn test_calculate_yara_risk_score_empty() {
    let findings = vec![];
    assert_eq!(calculate_yara_risk_score(&findings), 0);
}

#[test]
fn test_calculate_yara_risk_score_single_critical() {
    let findings = vec![YaraMatch {
        rule_name: "exec_base64".to_string(),
        file: "setup.py".to_string(),
        severity: "critical".to_string(),
        description: "test".to_string(),
        risk_score: 95,
        strings_matched: vec![],
    }];
    assert_eq!(calculate_yara_risk_score(&findings), 30);
}

#[test]
fn test_calculate_yara_risk_score_multiple() {
    let findings = vec![
        YaraMatch {
            rule_name: "exec_base64".to_string(),
            file: "setup.py".to_string(),
            severity: "critical".to_string(),
            description: "test".to_string(),
            risk_score: 30,
            strings_matched: vec![],
        },
        YaraMatch {
            rule_name: "obfuscation".to_string(),
            file: "utils.py".to_string(),
            severity: "high".to_string(),
            description: "test".to_string(),
            risk_score: 20,
            strings_matched: vec![],
        },
    ];
    assert_eq!(calculate_yara_risk_score(&findings), 50);
}

#[test]
fn test_calculate_yara_risk_score_capped() {
    let findings: Vec<YaraMatch> = (0..5)
        .map(|_| YaraMatch {
            rule_name: "test".to_string(),
            file: "test.py".to_string(),
            severity: "critical".to_string(),
            description: "test".to_string(),
            risk_score: 30,
            strings_matched: vec![],
        })
        .collect();
    assert_eq!(calculate_yara_risk_score(&findings), 100);
}

#[test]
fn test_parse_rule_metadata() {
    let content = r#"
rule test_rule
{
    meta:
        severity = "high"
        description = "A test rule"
        ecosystem = "pypi"
        risk_score = 85
    strings:
        $test = "hello"
    condition:
        $test
}
"#;
    let info = parse_rule_metadata(content, "test_rule", "builtin", "/tmp/test.yar");
    assert_eq!(info.name, "test_rule");
    assert_eq!(info.severity, "high");
    assert_eq!(info.description, "A test rule");
    assert_eq!(info.ecosystem, "pypi");
    assert_eq!(info.risk_score, 85);
    assert_eq!(info.source, "builtin");
    assert!(info.enabled);
}

#[test]
fn test_parse_rule_metadata_defaults() {
    let content = r#"
rule minimal_rule
{
    meta:
        description = "Minimal"
    strings:
        $a = "test"
    condition:
        $a
}
"#;
    let info = parse_rule_metadata(content, "minimal_rule", "custom", "/tmp/minimal.yar");
    assert_eq!(info.severity, "medium");
    assert_eq!(info.ecosystem, "all");
    assert_eq!(info.risk_score, 10);
}

#[test]
fn test_byte_offset_to_line() {
    let content = "line1\nline2\nline3\nline4";
    assert_eq!(byte_offset_to_line(content, 0), Some(1));
    assert_eq!(byte_offset_to_line(content, 6), Some(2));
    assert_eq!(byte_offset_to_line(content, 12), Some(3));
    assert_eq!(byte_offset_to_line(content, 18), Some(4));
    assert_eq!(byte_offset_to_line(content, 3), Some(1));
    assert_eq!(byte_offset_to_line(content, 100), None);
}

#[test]
fn test_byte_offset_to_line_single_line() {
    let content = "hello world";
    assert_eq!(byte_offset_to_line(content, 0), Some(1));
    assert_eq!(byte_offset_to_line(content, 5), Some(1));
}

#[test]
fn test_byte_offset_to_line_empty() {
    assert_eq!(byte_offset_to_line("", 0), Some(1));
    assert_eq!(byte_offset_to_line("", 1), None);
}

#[test]
fn test_byte_offset_to_line_multibyte() {
    // "é" takes two bytes; offset 3 is the start of the second line.
    let content = "é\nx";
    assert_eq!(byte_offset_to_line(content, 3), Some(2));
    assert_eq!(byte_offset_to_line(content, 4), Some(2));
    assert_eq!(byte_offset_to_line(content, 5), None);
}

#[test]
fn test_parse_rule_metadata_stops_at_condition() {
    let content = "meta:\n  severity = \"low\"\ncondition:\n  severity = \"critical\"\n";
    let info = parse_rule_metadata(content, "r", "custom", "/tmp/r.yar");
    assert_eq!(info.severity, "low");
    assert_eq!(info.risk_score, 5);
}

#[test]
fn test_parse_rule_metadata_bad_risk_score_kept() {
    let content = "severity = \"critical\"\nrisk_score = 999\n";
    let info = parse_rule_metadata(content, "r", "custom", "/tmp/r.yar");
    assert_eq!(info.risk_score, 30);
}

fn info(eco: &str, enabled: bool) -> YaraRuleInfo {
    YaraRuleInfo {
        name: "r".to_string(),
        severity: "high".to_string(),
        description: "desc".to_string(),
        ecosystem: eco.to_string(),
        risk_score: 42,
        enabled,
        source: "custom".to_string(),
        file_path: "/tmp/r.yar".to_string(),
    }
}

#[test]
fn test_rule_match_filters() {
    assert!(rule_match("r", Some(&info("all", false)), Ecosystem::PyPI, "f.py", vec![]).is_none());
    assert!(rule_match("r", Some(&info("npm", true)), Ecosystem::PyPI, "f.py", vec![]).is_none());
    let m = rule_match("r", Some(&info("pypi", true)), Ecosystem::PyPI, "f.py", vec![]).unwrap();
    assert_eq!(m.severity, "high");
    assert_eq!(m.risk_score, 42);
    let d = rule_match("plain", None, Ecosystem::Npm, "a.js", vec!["$a at line 1".to_string()]).unwrap();
    assert_eq!(d.severity, "medium");
    assert_eq!(d.description, "plain");
    assert_eq!(d.risk_score, 10);
    assert_eq!(d.strings_matched, vec!["$a at line 1".to_string()]);
}

#[test]
fn test_scan_result_verdict() {
    let low = YaraMatch {
        rule_name: "x".to_string(),
        file: "f".to_string(),
        severity: "low".to_string(),
        description: "d".to_string(),
        risk_score: 5,
        strings_matched: vec![],
    };
    let r = scan_result(vec![low.clone()]);
    assert_eq!(r.risk_score, 5);
    assert!(!r.is_malicious);
    let mut crit = low.clone();
    crit.severity = "critical".to_string();
    let r2 = scan_result(vec![low, crit]);
    assert_eq!(r2.risk_score, 35);
    assert!(r2.is_malicious);
}

#[test]
fn test_check_rule_name() {
    assert_eq!(check_rule_name("good_rule-1").unwrap(), "good_rule-1");
    assert_eq!(
        check_rule_name("../../etc/passwd").unwrap_err(),
        "Rule name '../../etc/passwd' contains invalid characters. Only alphanumeric, hyphens, and underscores are allowed."
    );
    assert_eq!(
        check_rule_name("../").unwrap_err(),
        "Rule name must contain alphanumeric characters, hyphens, or underscores"
    );
}

#[test]
fn test_check_deletable() {
    let mut i = info("all", true);
    assert!(check_deletable(&i).is_ok());
    i.source = "builtin".to_string();
    assert_eq!(check_deletable(&i).unwrap_err(), "Cannot delete built-in rules");
}

#[test]
fn test_match_location() {
    assert_eq!(match_location("$a", "x\ny", 2), "$a at line 2");
    assert_eq!(match_location("$a", "x\ny", 9), "$a at offset 9");
}
