use clu::analysis::guarddog::{
    calculate_risk_score, categorize_rule_severity, guarddog_args, parse_guarddog_output,
    sanitize_package_name, sanitize_version, GuardDogFinding, GuardDogOutput, ListedFinding,
    RuleOutcome,
};

#[test]
fn test_sanitize_package_name() {
    assert_eq!(sanitize_package_name("requests"), "requests");
    assert_eq!(sanitize_package_name("my-package_2.0"), "my-package_2.0");
    assert_eq!(sanitize_package_name("evil; rm -rf /"), "evilrm-rf");
    assert_eq!(sanitize_package_name("$(whoami)"), "whoami");
}

#[test]
fn test_sanitize_version() {
    assert_eq!(sanitize_version("1.2.3"), "1.2.3");
    assert_eq!(sanitize_version("2.0.0rc1"), "2.0.0rc1");
    assert_eq!(sanitize_version("1.0; cat /etc/passwd"), "1.0catetcpasswd");
}

#[test]
fn test_calculate_risk_score() {
    let findings = vec![
        GuardDogFinding {
            rule_name: "exec-base64".to_string(),
            severity: "critical".to_string(),
            description: "Executes base64 encoded code".to_string(),
        },
        GuardDogFinding {
            rule_name: "exfiltrate-sensitive-data".to_string(),
            severity: "high".to_string(),
            description: "May exfiltrate data".to_string(),
        },
    ];

    let score = calculate_risk_score(&findings);
    assert_eq!(score, 50);
}

#[test]
fn test_empty_findings() {
    let findings = vec![];
    let score = calculate_risk_score(&findings);
    assert_eq!(score, 0);
}

fn listed(rule: &str, severity: &str, message: &str) -> ListedFinding {
    ListedFinding {
        rule: rule.to_string(),
        severity: severity.to_string(),
        message: message.to_string(),
    }
}

#[test]
fn test_parse_empty_json() {
    let result = parse_guarddog_output(&GuardDogOutput::Listed(vec![]));
    assert!(!result.is_malicious);
    assert_eq!(result.risk_score, 0);
    assert_eq!(result.findings.len(), 0);

    let result_array = parse_guarddog_output(&GuardDogOutput::Bare(vec![]));
    assert!(!result_array.is_malicious);
    assert_eq!(result_array.risk_score, 0);
    assert_eq!(result_array.findings.len(), 0);
}

#[test]
fn test_parse_with_findings() {
    let out = GuardDogOutput::Listed(vec![listed(
        "exec-base64",
        "critical",
        "Executes base64 encoded code",
    )]);
    let result = parse_guarddog_output(&out);
    assert!(result.is_malicious);
    assert_eq!(result.risk_score, 30);
    assert_eq!(result.findings.len(), 1);
    assert_eq!(result.findings[0].rule_name, "exec-base64");
}

#[test]
fn test_parse_modern_format_with_map() {
    let out = GuardDogOutput::RuleMap(vec![
        ("bundled_binary".to_string(), RuleOutcome::Issue("Binary file/s detected".to_string())),
        ("code-execution".to_string(), RuleOutcome::NoIssue),
        ("silent-process-execution".to_string(), RuleOutcome::NoIssue),
        (
            "single_python_file".to_string(),
            RuleOutcome::Issue("This package has 1 or fewer Python source files".to_string()),
        ),
        ("unclaimed_maintainer_email_domain".to_string(), RuleOutcome::NoIssue),
    ]);
    let result = parse_guarddog_output(&out);
    assert_eq!(result.findings.len(), 2);
    assert!(result.findings.iter().any(|f| f.rule_name == "bundled_binary"));
    assert!(result.findings.iter().any(|f| f.rule_name == "single_python_file"));
    assert!(!result.findings.iter().any(|f| f.rule_name == "code-execution"));
    assert!(!result.findings.iter().any(|f| f.rule_name == "silent-process-execution"));
    // high (20) + medium (10)
    assert_eq!(result.risk_score, 30);
    assert!(!result.is_malicious);
}

#[test]
fn test_unparsable_output_is_benign() {
    let result = parse_guarddog_output(&GuardDogOutput::Unparsable);
    assert!(!result.is_malicious);
    assert_eq!(result.risk_score, 0);
    assert!(result.findings.is_empty());
}

#[test]
fn test_empty_description_is_no_issue() {
    let out = GuardDogOutput::RuleMap(vec![("shady-links".to_string(), RuleOutcome::Issue(String::new()))]);
    assert!(parse_guarddog_output(&out).findings.is_empty());
}

#[test]
fn test_categorize_rule_severity() {
    assert_eq!(categorize_rule_severity("code-execution"), "critical");
    assert_eq!(categorize_rule_severity("shady-links"), "high");
    assert_eq!(categorize_rule_severity("unicode"), "medium");
    assert_eq!(categorize_rule_severity("typosquatting"), "low");
    assert_eq!(categorize_rule_severity("something-else"), "medium");
}

#[test]
fn test_risk_score_capped_at_100() {
    let findings: Vec<GuardDogFinding> = (0..5)
        .map(|_| GuardDogFinding {
            rule_name: "x".to_string(),
            severity: "CRITICAL".to_string(),
            description: "d".to_string(),
        })
        .collect();
    assert_eq!(calculate_risk_score(&findings), 100);
}

#[test]
fn test_unknown_severity_counts_five() {
    let findings = vec![GuardDogFinding {
        rule_name: "x".to_string(),
        severity: "weird".to_string(),
        description: "d".to_string(),
    }];
    assert_eq!(calculate_risk_score(&findings), 5);
}

#[test]
fn test_guarddog_args() {
    assert_eq!(
        guarddog_args("evil;pkg", Some("1.0 && x")),
        vec!["pypi", "scan", "evilpkg==1.0x", "--output-format", "json"]
    );
    assert_eq!(guarddog_args("requests", None), vec!["pypi", "scan", "requests", "--output-format", "json"]);
}

#[test]
fn test_critical_severity_marks_malicious() {
    let out = GuardDogOutput::Bare(vec![listed("r", "critical", "m")]);
    let result = parse_guarddog_output(&out);
    assert_eq!(result.risk_score, 30);
    assert!(result.is_malicious);
}
