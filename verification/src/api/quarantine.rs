//! Quarantine endpoint bodies.
use vstd::prelude::*;
use crate::api::reports::{report_page_limit, ReportDetailResponse};
use crate::db::audit::AuditEntry;
use crate::db::quarantine::{QuarantineFilters, QuarantinedPackage};
use crate::text::{append_all, chars_of, string_of};

verus! {

/// Query parameters of the quarantine listing.
#[derive(Debug)]
pub struct QuarantineListQuery {
    pub ecosystem: Option<String>,
    pub package_name: Option<String>,
    pub min_severity: Option<i64>,
    pub since: Option<String>,
    pub limit: Option<i64>,
    pub offset: Option<i64>,
}

impl QuarantineListQuery {
    /// The filters the query asks for: its ecosystem, name, severity and
    /// date filters, a page of at most 200 packages (50 by default) from the
    /// given offset (0 by default).
    pub fn into_filters(self) -> (r: QuarantineFilters)
        ensures
            r.ecosystem == self.ecosystem && r.package_name == self.package_name && r.min_severity
                == self.min_severity && r.since == self.since,
            r.limit == Some(report_page_limit(self.limit)),
            r.offset == Some(match self.offset {
                Some(o) => o,
                None => 0i64,
            }),
    {
        let limit = match self.limit {
            Some(l) => if l < 200 {
                l
            } else {
                200
            },
            None => 50,
        };
        let offset = match self.offset {
            Some(o) => o,
            None => 0,
        };
        QuarantineFilters {
            ecosystem: self.ecosystem,
            package_name: self.package_name,
            min_severity: self.min_severity,
            since: self.since,
            limit: Some(limit),
            offset: Some(offset),
        }
    }
}

/// A quarantined package as the listing shows it (without paths on disk).
#[derive(Debug)]
pub struct QuarantineResponse {
    pub id: i64,
    pub package_name: String,
    pub package_version: Option<String>,
    pub ecosystem: String,
    pub severity: i64,
    pub recommendation: String,
    pub archive_size: Option<i64>,
    pub quarantined_at: String,
    pub report_id: Option<i64>,
}

impl QuarantineResponse {
    /// The package's public fields.
    pub fn from_package(qp: QuarantinedPackage) -> (r: QuarantineResponse)
        ensures
            r.id == qp.id && r.package_name == qp.package_name && r.package_version
                == qp.package_version && r.ecosystem == qp.ecosystem && r.severity == qp.severity
                && r.recommendation == qp.recommendation && r.archive_size == qp.archive_size
                && r.quarantined_at == qp.quarantined_at && r.report_id == qp.report_id,
    {
        QuarantineResponse {
            id: qp.id,
            package_name: qp.package_name,
            package_version: qp.package_version,
            ecosystem: qp.ecosystem,
            severity: qp.severity,
            recommendation: qp.recommendation,
            archive_size: qp.archive_size,
            quarantined_at: qp.quarantined_at,
            report_id: qp.report_id,
        }
    }
}

/// A quarantined package in full, with its report when one is stored.
#[derive(Debug)]
pub struct QuarantineDetailResponse {
    pub id: i64,
    pub package_name: String,
    pub package_version: Option<String>,
    pub ecosystem: String,
    pub severity: i64,
    pub recommendation: String,
    pub archive_path: String,
    pub archive_size: Option<i64>,
    pub metadata_path: Option<String>,
    pub quarantined_at: String,
    pub report_id: Option<i64>,
    pub report: Option<ReportDetailResponse>,
}

/// The audit record of a quarantined package deleted through the API: a
/// `delete` of the `quarantine` entity by `api`, with the package's stored
/// record as the old value.
pub fn deletion_audit_entry(id: i64, package_name: &str, old_value: Option<String>) -> (r: AuditEntry)
    ensures
        r.id == 0 && r.timestamp@.len() == 0,
        r.action@ == "delete"@ && r.entity_type@ == "quarantine"@ && r.entity_id == id,
        r.old_value == old_value && r.new_value is None,
        r.details matches Some(d) && d@ == "deleted quarantined package "@ + package_name@,
        r.actor@ == "api"@,
{
    let mut details = chars_of("deleted quarantined package ");
    append_all(&mut details, &chars_of(package_name));
    AuditEntry {
        id: 0,
        timestamp: String::new(),
        action: "delete".to_owned(),
        entity_type: "quarantine".to_owned(),
        entity_id: id,
        old_value,
        new_value: None,
        details: Some(string_of(&details)),
        actor: "api".to_owned(),
    }
}

} // verus!
