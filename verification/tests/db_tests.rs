use clu::db::audit::{audit_count_query, audit_query, AuditFilters};
use clu::db::findings::{finding_update_query, findings_query, FindingFilters, FindingStatus, FindingUpdate};
use clu::db::quarantine::{quarantine_count_query, quarantine_query, QuarantineFilters};
use clu::db::{reports_count_query, reports_query, PackageStatus, QueryFilters};

#[test]
fn test_finding_status_names_round_trip() {
    for s in [
        FindingStatus::New,
        FindingStatus::Triaging,
        FindingStatus::ConfirmedMalicious,
        FindingStatus::Benign,
        FindingStatus::Reported,
        FindingStatus::Duplicate,
    ] {
        assert_eq!(s.as_str().parse::<FindingStatus>(), Ok(s));
    }
    assert_eq!(
        "bogus".parse::<FindingStatus>(),
        Err("Unknown finding status: bogus".to_string())
    );
}

#[test]
fn test_package_status_names() {
    assert_eq!(PackageStatus::Typosquat.as_str(), "typosquat");
    assert_eq!(PackageStatus::from_str("llm"), Ok(PackageStatus::Llm));
    assert_eq!(PackageStatus::from_str("x"), Err("Unknown package status: x".to_string()));
    assert_eq!(PackageStatus::Completed.current_stage(), None);
    assert_eq!(PackageStatus::Queued.current_stage(), Some("queued"));
}

#[test]
fn test_findings_query_binds_values() {
    let f = FindingFilters {
        ecosystem: Some("pypi' OR 1=1 --".to_string()),
        status: None,
        min_severity: Some(5),
        min_score: None,
        since: None,
        limit: Some(10),
        offset: Some(20),
    };
    let q = findings_query(&f);
    assert!(q.sql.ends_with(" WHERE 1=1 AND ecosystem = ? AND severity >= ? ORDER BY last_updated DESC LIMIT 10 OFFSET 20"));
    assert!(!q.sql.contains("OR 1=1"));
    assert_eq!(q.bindings, vec!["pypi' OR 1=1 --".to_string(), "5".to_string()]);
}

#[test]
fn test_reports_query() {
    let f = QueryFilters {
        min_severity: Some(3),
        max_severity: None,
        recommendation: Some("INSPECT".to_string()),
        is_malicious: Some(false),
        package_name: Some("req".to_string()),
        limit: None,
        offset: None,
    };
    let q = reports_query(&f);
    assert_eq!(
        q.sql,
        "SELECT report_json FROM analysis_reports WHERE 1=1 AND severity >= ? AND recommendation = ? AND is_malicious = ? AND package_name LIKE ? ORDER BY timestamp DESC"
    );
    assert_eq!(q.bindings, vec!["3", "INSPECT", "0", "%req%"]);
    let c = reports_count_query(&QueryFilters::default());
    assert_eq!(c.sql, "SELECT COUNT(*) as count FROM analysis_reports WHERE 1=1");
    assert!(c.bindings.is_empty());
}

#[test]
fn test_quarantine_queries() {
    let f = QuarantineFilters { package_name: Some("x".to_string()), limit: Some(-1), ..Default::default() };
    let q = quarantine_query(&f);
    assert!(q.sql.ends_with("WHERE 1=1 AND package_name LIKE ? ORDER BY quarantined_at DESC LIMIT -1"));
    assert_eq!(q.bindings, vec!["%x%"]);
    let c = quarantine_count_query(&f);
    assert_eq!(c.sql, "SELECT COUNT(*) as count FROM quarantined_packages WHERE 1=1 AND package_name LIKE ?");
}

#[test]
fn test_audit_query_limits() {
    let q = audit_query(&AuditFilters::default());
    assert!(q.sql.ends_with("ORDER BY timestamp DESC LIMIT 50"));
    let big = audit_query(&AuditFilters { limit: Some(1000), entity_id: Some(7), ..Default::default() });
    assert!(big.sql.ends_with("AND entity_id = ? ORDER BY timestamp DESC LIMIT 200"));
    assert_eq!(big.bindings, vec!["7"]);
    let c = audit_count_query(&AuditFilters { action: Some("delete".to_string()), ..Default::default() });
    assert_eq!(c.sql, "SELECT COUNT(*) as count FROM audit_log WHERE 1=1 AND action = ?");
}

#[test]
fn test_finding_update_query() {
    assert!(finding_update_query(&FindingUpdate::default(), "now").is_none());
    let u = FindingUpdate {
        status: Some(FindingStatus::Benign),
        classification: None,
        analyst_notes: Some("ok".to_string()),
        reported_to: None,
    };
    let q = finding_update_query(&u, "2025-01-01T00:00:00Z").unwrap();
    assert_eq!(q.sql, "UPDATE findings SET status = ?, analyst_notes = ?, last_updated = ? WHERE id = ?");
    assert_eq!(q.bindings, vec!["benign", "ok", "2025-01-01T00:00:00Z"]);
}

fn placeholders(sql: &str) -> usize {
    sql.matches('?').count()
}

#[test]
fn every_placeholder_has_one_binding() {
    let f = FindingFilters {
        ecosystem: Some("npm?".to_string()),
        status: Some("new".to_string()),
        min_severity: Some(-3),
        min_score: Some(40),
        since: Some("2025-01-01".to_string()),
        limit: Some(-5),
        offset: Some(7),
    };
    let q = findings_query(&f);
    assert_eq!(placeholders(&q.sql), q.bindings.len());
    assert_eq!(q.bindings.len(), 5);

    let r = QueryFilters {
        min_severity: Some(1),
        max_severity: Some(9),
        recommendation: None,
        is_malicious: Some(true),
        package_name: None,
        limit: Some(3),
        offset: None,
    };
    assert_eq!(placeholders(&reports_query(&r).sql), 3);
    assert_eq!(placeholders(&reports_count_query(&r).sql), reports_count_query(&r).bindings.len());

    let qf = QuarantineFilters {
        ecosystem: Some("pypi".to_string()),
        min_severity: Some(2),
        since: Some("x".to_string()),
        ..Default::default()
    };
    assert_eq!(placeholders(&quarantine_query(&qf).sql), quarantine_query(&qf).bindings.len());
    assert_eq!(placeholders(&quarantine_count_query(&qf).sql), 3);

    let a = AuditFilters {
        action: Some("a".to_string()),
        entity_type: Some("finding".to_string()),
        entity_id: Some(4),
        since: Some("t".to_string()),
        limit: Some(-1),
        offset: Some(2),
    };
    assert_eq!(placeholders(&audit_query(&a).sql), 4);
    assert_eq!(placeholders(&audit_count_query(&a).sql), audit_count_query(&a).bindings.len());
}

#[test]
fn test_package_status_yara_variant() {
    assert_eq!(PackageStatus::Yara.as_str(), "yara");
    assert_eq!(PackageStatus::from_str("yara").unwrap(), PackageStatus::Yara);
    assert_eq!(PackageStatus::from_str("guarddog").unwrap(), PackageStatus::Yara);
}
