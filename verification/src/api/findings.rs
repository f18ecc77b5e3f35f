//! Finding endpoint bodies and the conversions between them and stored
//! findings.
use vstd::prelude::*;
use crate::api::AppError;
use crate::db::findings::{
    finding_status_name, finding_status_named, Finding, FindingFilters, FindingStatus, FindingUpdate,
};
use crate::feed::ecosystem::ecosystem_label;
use crate::output::AnalysisReport;

verus! {

/// A finding as the API shows it.
#[derive(Debug)]
pub struct FindingResponse {
    pub id: i64,
    pub report_id: Option<i64>,
    pub ecosystem: String,
    pub name: String,
    pub version: Option<String>,
    pub sha256: Option<String>,
    pub first_seen: String,
    pub last_updated: String,
    pub status: String,
    pub severity: i64,
    pub classification: Option<String>,
    pub score: i64,
    pub ioc: Option<String>,
    pub payload_excerpt: Option<String>,
    pub analyst_notes: Option<String>,
    pub reported_to: Option<String>,
}

impl FindingResponse {
    /// The finding with its status by name.
    pub fn from_finding(f: Finding) -> (r: FindingResponse)
        ensures
            r.id == f.id && r.report_id == f.report_id && r.ecosystem == f.ecosystem && r.name
                == f.name && r.version == f.version && r.sha256 == f.sha256,
            r.first_seen == f.first_seen && r.last_updated == f.last_updated,
            r.status@ == finding_status_name(f.status),
            r.severity == f.severity && r.classification == f.classification && r.score == f.score,
            r.ioc == f.ioc && r.payload_excerpt == f.payload_excerpt && r.analyst_notes
                == f.analyst_notes && r.reported_to == f.reported_to,
    {
        let status = f.status.as_str().to_owned();
        FindingResponse {
            id: f.id,
            report_id: f.report_id,
            ecosystem: f.ecosystem,
            name: f.name,
            version: f.version,
            sha256: f.sha256,
            first_seen: f.first_seen,
            last_updated: f.last_updated,
            status,
            severity: f.severity,
            classification: f.classification,
            score: f.score,
            ioc: f.ioc,
            payload_excerpt: f.payload_excerpt,
            analyst_notes: f.analyst_notes,
            reported_to: f.reported_to,
        }
    }
}

/// An analyst's change to a finding.
#[derive(Debug)]
pub struct PatchFindingRequest {
    pub status: Option<String>,
    pub classification: Option<String>,
    pub analyst_notes: Option<String>,
    pub reported_to: Option<String>,
}

impl PatchFindingRequest {
    /// The update the request asks for; a status that is not one of the
    /// triage states is a bad request.
    pub fn into_update(self) -> (r: Result<FindingUpdate, AppError>)
        ensures
            match self.status {
                Some(s) => match finding_status_named(s@) {
                    Some(st) => r matches Ok(u) && u.status == Some(st),
                    None => r matches Err(AppError::BadRequest(m)) && m@
                        == "Unknown finding status: "@ + s@,
                },
                None => r matches Ok(u) && u.status is None,
            },
            r matches Ok(u) ==> u.classification == self.classification && u.analyst_notes
                == self.analyst_notes && u.reported_to == self.reported_to,
    {
        let status = match &self.status {
            Some(s) => match FindingStatus::from_name(s.as_str()) {
                Ok(st) => Some(st),
                Err(e) => return Err(AppError::BadRequest(e)),
            },
            None => None,
        };
        Ok(
            FindingUpdate {
                status,
                classification: self.classification,
                analyst_notes: self.analyst_notes,
                reported_to: self.reported_to,
            },
        )
    }
}

/// Query parameters of the findings listing.
#[derive(Debug)]
pub struct ListQuery {
    pub ecosystem: Option<String>,
    pub status: Option<String>,
    pub min_severity: Option<i64>,
    pub min_score: Option<i64>,
    pub since: Option<String>,
    pub limit: Option<i64>,
    pub offset: Option<i64>,
}

impl ListQuery {
    /// The filters the query asks for, field by field.
    pub fn into_filters(self) -> (r: FindingFilters)
        ensures
            r.ecosystem == self.ecosystem && r.status == self.status && r.min_severity
                == self.min_severity && r.min_score == self.min_score && r.since == self.since
                && r.limit == self.limit && r.offset == self.offset,
    {
        FindingFilters {
            ecosystem: self.ecosystem,
            status: self.status,
            min_severity: self.min_severity,
            min_score: self.min_score,
            since: self.since,
            limit: self.limit,
            offset: self.offset,
        }
    }
}

/// The finding registered for a report: new, scored by the report's
/// severity, without a digest when the report has none.
pub fn finding_for_report(report: &AnalysisReport, report_id: Option<i64>) -> (r: Finding)
    ensures
        r.id == 0,
        r.report_id == report_id,
        r.ecosystem@ == ecosystem_label(report.ecosystem),
        r.name@ == report.package_name@,
        r.version == report.package_version,
        report.sha256@.len() == 0 ==> r.sha256 is None,
        report.sha256@.len() > 0 ==> (r.sha256 matches Some(s) && s@ == report.sha256@),
        r.first_seen@.len() == 0 && r.last_updated@.len() == 0,
        r.status == FindingStatus::New,
        r.severity == report.severity as i64 && r.score == report.severity as i64,
        r.classification is None && r.ioc is None && r.payload_excerpt is None,
        r.analyst_notes is None && r.reported_to is None,
{
    let sha256 = if report.sha256.as_str().is_empty() {
        None
    } else {
        Some(report.sha256.clone())
    };
    Finding {
        id: 0,
        report_id,
        ecosystem: report.ecosystem.label().to_owned(),
        name: report.package_name.clone(),
        version: report.package_version.clone(),
        sha256,
        first_seen: String::new(),
        last_updated: String::new(),
        status: FindingStatus::New,
        severity: report.severity as i64,
        classification: None,
        score: report.severity as i64,
        ioc: None,
        payload_excerpt: None,
        analyst_notes: None,
        reported_to: None,
    }
}

} // verus!
