use clu::analysis::heuristics::HeuristicMatch;
use clu::analysis::llm::{ImpactLevel, LikelihoodLevel, LlmAnalysisResult};
use clu::analysis::typosquat::TyposquatFinding;
use clu::feed::ecosystem::Ecosystem;
use clu::output::formatters::coloured_text::ColouredTextFormatter;
use clu::output::formatters::text::TextFormatter;
use clu::output::{format_notification, meets_threshold, severity_label, AnalysisReport};

fn make_report() -> AnalysisReport {
    AnalysisReport {
        package_name: "test-pkg".to_string(),
        package_version: Some("1.0.0".to_string()),
        timestamp: "2025-01-01T00:00:00Z".to_string(),
        ecosystem: Ecosystem::PyPI,
        sha256: "abc123".to_string(),
        heuristic_matches: vec![],
        typosquat_matches: vec![],
        guarddog_result: None,
        yara_result: None,
        llm_analysis: None,
        severity: 5,
        is_malicious: false,
        recommendation: "IGNORE".to_string(),
    }
}

#[test]
fn test_text_formatter_no_findings() {
    let output = TextFormatter {}.format_report(&make_report());
    assert!(output.contains("IGNORE"));
    assert!(output.contains("test-pkg"));
    assert!(output.contains("No issues detected"));
    assert_eq!(output, "\n[IGNORE] test-pkg 1.0.0 (severity: MEDIUM/5):\n  No issues detected\n");
}

#[test]
fn test_text_formatter_with_heuristics() {
    let mut report = make_report();
    report.heuristic_matches = vec![HeuristicMatch {
        rule_name: "suspicious_author".to_string(),
        risk_score: 50,
        evidence: "author=test".to_string(),
        description: "Suspicious author name".to_string(),
        location: "author".to_string(),
    }];
    let output = TextFormatter {}.format_report(&report);
    assert!(output.contains("HEURISTIC: suspicious_author"));
    assert!(!output.contains("No issues detected"));
}

#[test]
fn test_text_formatter_with_typosquat() {
    let mut report = make_report();
    report.typosquat_matches = vec![TyposquatFinding {
        rule_name: "typosquat".to_string(),
        risk_score: 75,
        evidence: "likely typosquat of requests".to_string(),
        legit_package_name: "requests".to_string(),
        distance: 2,
        name_len: 8,
    }];
    let output = TextFormatter {}.format_report(&report);
    assert!(output.contains("TYPOSQUAT"));
}

#[test]
fn test_text_formatter_severity_labels() {
    let mut low = make_report();
    low.severity = 3;
    assert!(TextFormatter {}.format_report(&low).contains("LOW"));
    let mut high = make_report();
    high.severity = 18;
    assert!(TextFormatter {}.format_report(&high).contains("HIGH"));
    assert_eq!(severity_label(0), "CRITICAL");
    assert_eq!(severity_label(21), "CRITICAL");
    assert_eq!(severity_label(12), "MEDIUM");
    assert_eq!(severity_label(19), "HIGH");
    assert_eq!(severity_label(20), "CRITICAL");
}

fn llm(severity: u8, conflicted: bool) -> LlmAnalysisResult {
    LlmAnalysisResult {
        impact: ImpactLevel::High,
        likelihood: LikelihoodLevel::Likely,
        severity,
        reasoning: "obfuscated payload".to_string(),
        confidence: 80,
        conflicted,
    }
}

#[test]
fn test_notification_text() {
    let mut report = make_report();
    report.package_version = None;
    report.llm_analysis = Some(llm(12, true));
    assert_eq!(
        format_notification(&report),
        "[CLU] IGNORE — test-pkg unknown (severity: MEDIUM/5)\n  llm: MALICIOUS [CONFLICTED] — obfuscated payload"
    );
    report.llm_analysis = Some(llm(4, false));
    assert_eq!(format_notification(&report), "[CLU] IGNORE — test-pkg unknown (severity: MEDIUM/5)");
}

#[test]
fn test_coloured_formatter() {
    let out = ColouredTextFormatter {}.format_report(&make_report());
    assert_eq!(
        out,
        "\n\x1b[1m\x1b[32m[ IGNORE ]\x1b[39m\x1b[0m \x1b[1m\x1b[96mtest-pkg\x1b[39m\x1b[0m \x1b[33m●\x1b[39m (severity: 5)\n  \x1b[32mNo issues detected\x1b[39m\n"
    );
    let mut r = make_report();
    r.llm_analysis = Some(llm(9, false));
    let out2 = ColouredTextFormatter {}.format_report(&r);
    assert!(out2.contains("LLM flagged as malicious"));
    assert!(!out2.contains("No issues detected"));
}

#[test]
fn notification_threshold_needs_enabled_and_severity() {
    assert!(meets_threshold(true, 7, 7));
    assert!(meets_threshold(true, 9, 7));
    assert!(!meets_threshold(true, 6, 7));
    assert!(!meets_threshold(false, 10, 0));
}
