//! Dashboard statistics: the counts behind them.
use vstd::prelude::*;
use crate::db::findings::FindingFilters;

verus! {

/// Query parameters of the statistics endpoint.
#[derive(Debug)]
pub struct StatsQuery {
    pub since: Option<String>,
}

/// Findings counted by severity band, status and ecosystem.
#[derive(Debug)]
pub struct FindingStats {
    pub total_findings: i64,
    pub total_reports: i64,
    pub total_quarantined: i64,
    pub low: i64,
    pub medium: i64,
    pub high: i64,
    pub critical: i64,
    pub new: i64,
    pub triaging: i64,
    pub confirmed_malicious: i64,
    pub benign: i64,
    pub reported: i64,
    pub duplicate: i64,
    pub pypi: i64,
    pub npm: i64,
    pub recent_findings_24h: i64,
}

/// A filter on the minimum severity only.
pub open spec fn min_severity_filter(f: FindingFilters, s: i64) -> bool {
    f.min_severity == Some(s) && f.ecosystem is None && f.status is None && f.min_score is None
        && f.since is None && f.limit is None && f.offset is None
}

/// A filter on the status only.
pub open spec fn status_filter(f: FindingFilters, s: Seq<char>) -> bool {
    f.status matches Some(x) && x@ == s && f.ecosystem is None && f.min_severity is None
        && f.min_score is None && f.since is None && f.limit is None && f.offset is None
}

/// A filter on the ecosystem only.
pub open spec fn ecosystem_filter(f: FindingFilters, e: Seq<char>) -> bool {
    f.ecosystem matches Some(x) && x@ == e && f.status is None && f.min_severity is None
        && f.min_score is None && f.since is None && f.limit is None && f.offset is None
}

fn by_severity(s: i64) -> (r: FindingFilters)
    ensures
        min_severity_filter(r, s),
{
    FindingFilters { ecosystem: None, status: None, min_severity: Some(s), min_score: None, since: None, limit: None, offset: None }
}

fn by_status(s: &str) -> (r: FindingFilters)
    ensures
        status_filter(r, s@),
{
    FindingFilters { ecosystem: None, status: Some(s.to_owned()), min_severity: None, min_score: None, since: None, limit: None, offset: None }
}

fn by_ecosystem(e: &str) -> (r: FindingFilters)
    ensures
        ecosystem_filter(r, e@),
{
    FindingFilters { ecosystem: Some(e.to_owned()), status: None, min_severity: None, min_score: None, since: None, limit: None, offset: None }
}

/// The finding counts the dashboard shows, in order: findings from
/// severity 1, 5, 13 and 20; by each triage status; by each ecosystem.
pub fn stats_count_filters() -> (r: Vec<FindingFilters>)
    ensures
        r@.len() == 12,
        min_severity_filter(r@[0], 1),
        min_severity_filter(r@[1], 5),
        min_severity_filter(r@[2], 13),
        min_severity_filter(r@[3], 20),
        status_filter(r@[4], "new"@),
        status_filter(r@[5], "triaging"@),
        status_filter(r@[6], "confirmed_malicious"@),
        status_filter(r@[7], "benign"@),
        status_filter(r@[8], "reported"@),
        status_filter(r@[9], "duplicate"@),
        ecosystem_filter(r@[10], "pypi"@),
        ecosystem_filter(r@[11], "npm"@),
{
    let mut r: Vec<FindingFilters> = Vec::new();
    r.push(by_severity(1));
    r.push(by_severity(5));
    r.push(by_severity(13));
    r.push(by_severity(20));
    r.push(by_status("new"));
    r.push(by_status("triaging"));
    r.push(by_status("confirmed_malicious"));
    r.push(by_status("benign"));
    r.push(by_status("reported"));
    r.push(by_status("duplicate"));
    r.push(by_ecosystem("pypi"));
    r.push(by_ecosystem("npm"));
    r
}

/// The statistics from the totals and the twelve counts, in the order of
/// `stats_count_filters`; the recent-findings figure is the count of new
/// findings.
pub fn finding_stats(totals: (i64, i64, i64), counts: &[i64]) -> (r: FindingStats)
    requires
        counts@.len() == 12,
    ensures
        r.total_findings == totals.0 && r.total_reports == totals.1 && r.total_quarantined == totals.2,
        r.low == counts@[0] && r.medium == counts@[1] && r.high == counts@[2] && r.critical == counts@[3],
        r.new == counts@[4] && r.triaging == counts@[5] && r.confirmed_malicious == counts@[6],
        r.benign == counts@[7] && r.reported == counts@[8] && r.duplicate == counts@[9],
        r.pypi == counts@[10] && r.npm == counts@[11],
        r.recent_findings_24h == counts@[4],
{
    FindingStats {
        total_findings: totals.0,
        total_reports: totals.1,
        total_quarantined: totals.2,
        low: counts[0],
        medium: counts[1],
        high: counts[2],
        critical: counts[3],
        new: counts[4],
        triaging: counts[5],
        confirmed_malicious: counts[6],
        benign: counts[7],
        reported: counts[8],
        duplicate: counts[9],
        pypi: counts[10],
        npm: counts[11],
        recent_findings_24h: counts[4],
    }
}

} // verus!
