use clu::api::findings::{finding_for_report, FindingResponse, ListQuery, PatchFindingRequest};
use clu::api::health::health_response;
use clu::api::osm::to_osm_report;
use clu::api::quarantine::{deletion_audit_entry, QuarantineListQuery};
use clu::api::reports::ReportListQuery;
use clu::api::stats::{finding_stats, stats_count_filters};
use clu::api::{is_loopback_host, listen_host, require_auth, AppError};
use clu::db::findings::FindingStatus;
use clu::feed::ecosystem::Ecosystem;
use clu::output::AnalysisReport;

#[test]
fn test_require_auth_with_token() {
    let token = Some("s3cret".to_string());
    assert!(require_auth(Some("Bearer s3cret"), &token, false).is_ok());
    assert!(require_auth(Some("Bearer   s3cret  "), &token, false).is_ok());
    assert!(matches!(require_auth(Some("Bearer wrong"), &token, true), Err(AppError::Unauthorized)));
    assert!(require_auth(Some("s3cret"), &token, true).is_err());
    assert!(require_auth(None, &token, true).is_err());
}

#[test]
fn test_require_auth_without_token_fails_closed() {
    assert!(require_auth(None, &None, true).is_ok());
    assert!(require_auth(Some("Bearer anything"), &None, false).is_err());
}

#[test]
fn test_listen_host_and_loopback() {
    assert_eq!(listen_host("127.0.0.1:8080"), "127.0.0.1");
    assert_eq!(listen_host("localhost"), "localhost");
    assert_eq!(listen_host("[::1]:3000"), "::1");
    assert!(is_loopback_host("localhost", None));
    assert!(is_loopback_host("127.0.0.1", Some(true)));
    assert!(!is_loopback_host("0.0.0.0", Some(false)));
    assert!(!is_loopback_host("[::1]", None));
}

#[test]
fn test_app_error_responses() {
    let (code, body) = AppError::NotFound("finding 3 not found".to_string()).response();
    assert_eq!(code, 404);
    assert_eq!(body, "not found: finding 3 not found");
    assert_eq!(AppError::BadRequest("x".to_string()).response(), (400, "bad request: x".to_string()));
    assert_eq!(AppError::Unauthorized.response(), (401, "unauthorized".to_string()));
    assert_eq!(AppError::Internal("db".to_string()).response(), (500, "internal server error".to_string()));
    assert_eq!(AppError::Internal("db".to_string()).message(), "internal error: db");
}

fn report() -> AnalysisReport {
    AnalysisReport {
        package_name: "evil-pkg".to_string(),
        package_version: Some("0.1".to_string()),
        timestamp: "2025-01-01T00:00:00Z".to_string(),
        ecosystem: Ecosystem::Npm,
        sha256: String::new(),
        heuristic_matches: vec![],
        typosquat_matches: vec![],
        guarddog_result: None,
        yara_result: None,
        llm_analysis: None,
        severity: 13,
        is_malicious: false,
        recommendation: "INSPECT".to_string(),
    }
}

#[test]
fn test_finding_for_report_and_response() {
    let f = finding_for_report(&report(), Some(9));
    assert_eq!(f.ecosystem, "npm");
    assert_eq!(f.sha256, None);
    assert_eq!(f.severity, 13);
    assert_eq!(f.status, FindingStatus::New);
    let r = FindingResponse::from_finding(f);
    assert_eq!(r.status, "new");
    assert_eq!(r.report_id, Some(9));
}

#[test]
fn test_patch_request() {
    let ok = PatchFindingRequest { status: Some("benign".to_string()), classification: None, analyst_notes: None, reported_to: None };
    assert_eq!(ok.into_update().unwrap().status, Some(FindingStatus::Benign));
    let bad = PatchFindingRequest { status: Some("gone".to_string()), classification: None, analyst_notes: None, reported_to: None };
    match bad.into_update() {
        Err(AppError::BadRequest(m)) => assert_eq!(m, "Unknown finding status: gone"),
        _ => panic!("expected a bad request"),
    }
    let q = ListQuery { ecosystem: None, status: Some("new".to_string()), min_severity: Some(2), min_score: None, since: None, limit: None, offset: None };
    let f = q.into_filters();
    assert_eq!(f.status, Some("new".to_string()));
    assert_eq!(f.min_severity, Some(2));
}

#[test]
fn test_osm_report() {
    let f = finding_for_report(&report(), None);
    let osm = to_osm_report(&f, Some(&report()), None, None);
    assert_eq!(osm.status, "new");
    let ev = osm.scan_evidence.unwrap();
    assert_eq!(ev.recommendation, Some("INSPECT".to_string()));
    assert!(ev.yara_findings.is_none());
    assert!(to_osm_report(&f, None, None, None).scan_evidence.is_none());
}

#[test]
fn test_health_and_stats() {
    let (code, body) = health_response(false);
    assert_eq!(code, 503);
    assert_eq!(body.db, "unavailable");
    let filters = stats_count_filters();
    assert_eq!(filters.len(), 12);
    assert_eq!(filters[2].min_severity, Some(13));
    assert_eq!(filters[6].status, Some("confirmed_malicious".to_string()));
    let stats = finding_stats((1, 2, 3), &[10, 11, 12, 13, 14, 15, 16, 17, 18, 19, 20, 21]);
    assert_eq!(stats.recent_findings_24h, 14);
    assert_eq!(stats.npm, 21);
}

fn report_query(limit: Option<i64>, offset: Option<i64>) -> ReportListQuery {
    ReportListQuery {
        package_name: Some("%req%".to_string()),
        ecosystem: None,
        min_severity: Some(3),
        max_severity: None,
        recommendation: None,
        is_malicious: Some(true),
        since: None,
        until: None,
        sort: None,
        order: None,
        limit,
        offset,
    }
}

#[test]
fn report_listing_pages_default_and_cap() {
    let f = report_query(None, None).into_filters();
    assert_eq!(f.limit, Some(50));
    assert_eq!(f.offset, Some(0));
    assert_eq!(f.min_severity, Some(3));
    assert_eq!(f.is_malicious, Some(true));
    assert_eq!(f.package_name.as_deref(), Some("%req%"));

    let capped = report_query(Some(1000), Some(40)).into_filters();
    assert_eq!(capped.limit, Some(200));
    assert_eq!(capped.offset, Some(40));

    let small = report_query(Some(7), None).into_filters();
    assert_eq!(small.limit, Some(7));
}

#[test]
fn quarantine_listing_pages_default_and_cap() {
    let q = QuarantineListQuery {
        ecosystem: Some("npm".to_string()),
        package_name: None,
        min_severity: Some(5),
        since: None,
        limit: None,
        offset: None,
    };
    let f = q.into_filters();
    assert_eq!(f.limit, Some(50));
    assert_eq!(f.offset, Some(0));
    assert_eq!(f.ecosystem.as_deref(), Some("npm"));
    assert_eq!(f.min_severity, Some(5));

    let q = QuarantineListQuery {
        ecosystem: None,
        package_name: None,
        min_severity: None,
        since: None,
        limit: Some(500),
        offset: Some(10),
    };
    let f = q.into_filters();
    assert_eq!(f.limit, Some(200));
    assert_eq!(f.offset, Some(10));
}

#[test]
fn quarantine_deletion_is_audited() {
    let e = deletion_audit_entry(42, "evil-pkg", Some("{}".to_string()));
    assert_eq!(e.action, "delete");
    assert_eq!(e.entity_type, "quarantine");
    assert_eq!(e.entity_id, 42);
    assert_eq!(e.old_value.as_deref(), Some("{}"));
    assert_eq!(e.new_value, None);
    assert_eq!(e.details.as_deref(), Some("deleted quarantined package evil-pkg"));
    assert_eq!(e.actor, "api");
}

#[test]
fn ipv6_loopback_bind_needs_no_token() {
    let host = listen_host("[::1]:8080");
    assert_eq!(host, "::1");
    // "::1" parses as the IPv6 loopback address.
    let loopback = is_loopback_host(&host, Some(true));
    assert!(loopback);
    assert!(require_auth(None, &None, loopback).is_ok());
}
