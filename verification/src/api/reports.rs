//! Report endpoint bodies.
use vstd::prelude::*;
use crate::analysis::heuristics::HeuristicMatch;
use crate::analysis::llm::LlmAnalysisResult;
use crate::analysis::typosquat::TyposquatFinding;
use crate::db::QueryFilters;
use crate::output::YaraScanResult;

verus! {

/// Query parameters of the report listing.
#[derive(Debug)]
pub struct ReportListQuery {
    pub package_name: Option<String>,
    pub ecosystem: Option<String>,
    pub min_severity: Option<u8>,
    pub max_severity: Option<u8>,
    pub recommendation: Option<String>,
    pub is_malicious: Option<bool>,
    pub since: Option<String>,
    pub until: Option<String>,
    pub sort: Option<String>,
    pub order: Option<String>,
    pub limit: Option<i64>,
    pub offset: Option<i64>,
}

/// A stored report as the listing shows it.
#[derive(Debug)]
pub struct ReportSummaryResponse {
    pub id: i64,
    pub package_name: String,
    pub package_version: Option<String>,
    pub ecosystem: Option<String>,
    pub severity: i64,
    pub is_malicious: bool,
    pub recommendation: String,
    pub sha256: Option<String>,
    pub timestamp: String,
}

/// A stored report in full.
#[derive(Debug)]
pub struct ReportDetailResponse {
    pub id: i64,
    pub package_name: String,
    pub package_version: Option<String>,
    pub timestamp: String,
    pub ecosystem: String,
    pub sha256: String,
    pub heuristic_matches: Vec<HeuristicMatch>,
    pub typosquat_matches: Vec<TyposquatFinding>,
    pub yara_result: Option<YaraScanResult>,
    pub llm_analysis: Option<LlmAnalysisResult>,
    pub severity: u8,
    pub is_malicious: bool,
    pub recommendation: String,
}


/// The page size of the report listing: 50 unless given, at most 200.
pub open spec fn report_page_limit(limit: Option<i64>) -> i64 {
    match limit {
        Some(l) => if l < 200 {
            l
        } else {
            200
        },
        None => 50,
    }
}

impl ReportListQuery {
    /// The stored-report filter for a listing request: its severity range,
    /// recommendation, verdict and name filter, a page of at most 200
    /// reports (50 by default) from the given offset (0 by default).
    pub fn into_filters(self) -> (r: QueryFilters)
        ensures
            r.min_severity == self.min_severity && r.max_severity == self.max_severity,
            r.recommendation == self.recommendation && r.is_malicious == self.is_malicious,
            r.package_name == self.package_name,
            r.limit == Some(report_page_limit(self.limit)),
            r.offset == Some(match self.offset {
                Some(o) => o,
                None => 0i64,
            }),
    {
        let limit = match self.limit {
            Some(l) => if l < 200 {
                l
            } else {
                200
            },
            None => 50,
        };
        let offset = match self.offset {
            Some(o) => o,
            None => 0,
        };
        QueryFilters {
            min_severity: self.min_severity,
            max_severity: self.max_severity,
            recommendation: self.recommendation,
            is_malicious: self.is_malicious,
            package_name: self.package_name,
            limit: Some(limit),
            offset: Some(offset),
        }
    }
}

} // verus!
