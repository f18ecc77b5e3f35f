use clu::analysis::compute_static_severity;

#[test]
fn test_severity_no_findings() {
    let (severity, is_malicious, risk) = compute_static_severity(0, 0, 0);
    assert_eq!(severity, 1);
    assert!(!is_malicious);
    assert_eq!(risk, 0);
}

#[test]
fn test_severity_missing_author_only() {
    let (severity, is_malicious, _) = compute_static_severity(5, 0, 0);
    assert_eq!(severity, 1);
    assert!(!is_malicious);
}

#[test]
fn test_severity_missing_description_only() {
    let (severity, is_malicious, _) = compute_static_severity(35, 0, 0);
    assert_eq!(severity, 3);
    assert!(!is_malicious);
}

#[test]
fn test_severity_eval_base64_only() {
    let (severity, is_malicious, _) = compute_static_severity(90, 0, 0);
    assert_eq!(severity, 9);
    assert!(is_malicious);
}

#[test]
fn test_severity_dangerous_operations_only() {
    let (severity, is_malicious, _) = compute_static_severity(95, 0, 0);
    assert_eq!(severity, 9);
    assert!(is_malicious);
}

#[test]
fn test_severity_missing_author_plus_description() {
    let (severity, is_malicious, _) = compute_static_severity(40, 0, 0);
    assert_eq!(severity, 4);
    assert!(!is_malicious);
}

#[test]
fn test_severity_missing_author_plus_dangerous() {
    let (severity, is_malicious, _) = compute_static_severity(100, 0, 0);
    assert_eq!(severity, 10);
    assert!(is_malicious);
}

#[test]
fn test_severity_typosquat_dist1() {
    let (severity, is_malicious, _) = compute_static_severity(0, 90, 0);
    assert_eq!(severity, 9);
    assert!(is_malicious);
}

#[test]
fn test_severity_typosquat_dist2() {
    let (severity, is_malicious, _) = compute_static_severity(0, 75, 0);
    assert_eq!(severity, 7);
    assert!(is_malicious);
}

#[test]
fn test_severity_combined_all_tiers() {
    let (severity, is_malicious, _) = compute_static_severity(5, 90, 70);
    assert_eq!(severity, 16);
    assert!(is_malicious);
}

#[test]
fn test_severity_capped_at_25() {
    let (severity, is_malicious, _) = compute_static_severity(300, 0, 0);
    assert_eq!(severity, 25);
    assert!(is_malicious);
}

#[test]
fn test_severity_minimum_1() {
    let (severity, is_malicious, _) = compute_static_severity(5, 0, 0);
    assert_eq!(severity, 1);
    assert!(!is_malicious);
}

#[test]
fn test_severity_malicious_threshold_exactly_70() {
    let (severity, is_malicious, _) = compute_static_severity(70, 0, 0);
    assert_eq!(severity, 7);
    assert!(is_malicious);
}

#[test]
fn test_severity_malicious_threshold_just_below() {
    let (severity, is_malicious, _) = compute_static_severity(69, 0, 0);
    assert_eq!(severity, 6);
    assert!(!is_malicious);
}

#[test]
fn test_recommendation_thresholds() {
    let (sev_1, _, _) = compute_static_severity(5, 0, 0);
    assert!(sev_1 <= 4, "missing_author (risk=5) should be IGNORE");

    let (sev_4, _, _) = compute_static_severity(40, 0, 0);
    assert!(sev_4 <= 4, "missing_author+description (risk=40) should be IGNORE");

    let (sev_9, _, _) = compute_static_severity(90, 0, 0);
    assert!(sev_9 > 4, "eval_base64 alone should be INSPECT");
}

#[test]
fn test_severity_saturates_on_overflow() {
    let (severity, is_malicious, risk) = compute_static_severity(u32::MAX, 5, 5);
    assert_eq!(risk, u32::MAX);
    assert_eq!(severity, 25);
    assert!(is_malicious);
}

#[test]
fn test_compute_static_severity_with_yara() {
    let (sev, malicious, risk) = compute_static_severity(0, 0, 70);
    assert_eq!(sev, 7);
    assert!(malicious);
    assert_eq!(risk, 70);

    let (sev, malicious, _risk) = compute_static_severity(0, 0, 30);
    assert_eq!(sev, 3);
    assert!(!malicious);

    let (sev, malicious, _risk) = compute_static_severity(30, 90, 30);
    assert_eq!(sev, 15);
    assert!(malicious);
}
