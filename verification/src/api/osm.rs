//! OpenSourceMalware (OSM) report export: a finding and, when it is
//! linked, its analysis report, in the shape OSM takes.
use vstd::prelude::*;
use crate::db::findings::{finding_status_name, Finding};
use crate::output::AnalysisReport;
use crate::text::{append_all, chars_of, string_of, string_views};

verus! {

/// An OSM report.
#[derive(Debug)]
pub struct OpenSourceMalwareReport {
    pub id: i64,
    pub ecosystem: String,
    pub name: String,
    pub version: Option<String>,
    pub sha256: Option<String>,
    pub status: String,
    pub severity: i64,
    pub classification: Option<String>,
    pub score: i64,
    pub first_seen: String,
    pub last_updated: String,
    pub ioc: Option<IocData>,
    pub payload_excerpt: Option<String>,
    pub analyst_notes: Option<String>,
    pub reported_to: Option<ReportedTo>,
    pub scan_evidence: Option<ScanEvidence>,
}

/// Indicators of compromise.
#[derive(Debug, Clone)]
pub struct IocData {
    pub domains: Vec<String>,
    pub ips: Vec<String>,
    pub urls: Vec<String>,
    pub wallets: Vec<String>,
    pub webhooks: Vec<String>,
}

/// Where the finding was reported.
#[derive(Debug, Clone, Copy)]
pub struct ReportedTo {
    pub osm: bool,
    pub ossf: bool,
    pub registry: bool,
}

/// What the scan found, in brief.
#[derive(Debug)]
pub struct ScanEvidence {
    pub heuristic_matches: Vec<String>,
    pub typosquat_matches: Vec<String>,
    pub yara_findings: Option<Vec<String>>,
    pub llm_assessment: Option<String>,
    pub recommendation: Option<String>,
}

/// The evidence drawn from a report: the heuristic rules that fired, the
/// typosquat evidence, each YARA match as `rule: description`, the LLM's
/// reasoning and the recommendation.
pub open spec fn evidence_of(r: AnalysisReport, e: ScanEvidence) -> bool {
    &&& string_views(e.heuristic_matches@) == Seq::new(
        r.heuristic_matches@.len(),
        |i: int| r.heuristic_matches@[i].rule_name@,
    )
    &&& string_views(e.typosquat_matches@) == Seq::new(
        r.typosquat_matches@.len(),
        |i: int| r.typosquat_matches@[i].evidence@,
    )
    &&& match r.yara_result {
        Some(y) => e.yara_findings matches Some(v) && string_views(v@) == Seq::new(
            y.findings@.len(),
            |i: int| y.findings@[i].rule_name@ + ": "@ + y.findings@[i].description@,
        ),
        None => e.yara_findings is None,
    }
    &&& match r.llm_analysis {
        Some(a) => e.llm_assessment matches Some(s) && s@ == a.reasoning@,
        None => e.llm_assessment is None,
    }
    &&& e.recommendation matches Some(s) && s@ == r.recommendation@
}

fn scan_evidence(r: &AnalysisReport) -> (e: ScanEvidence)
    ensures
        evidence_of(*r, e),
{
    let mut heuristic_matches: Vec<String> = Vec::new();
    let nh = r.heuristic_matches.len();
    for i in 0..nh
        invariant
            nh == r.heuristic_matches@.len(),
            heuristic_matches@.len() == i,
            forall|k: int| 0 <= k < i ==> (#[trigger] heuristic_matches@[k])@ == r.heuristic_matches@[k].rule_name@,
    {
        heuristic_matches.push(r.heuristic_matches[i].rule_name.clone());
    }
    assert(string_views(heuristic_matches@) =~= Seq::new(nh as nat, |k: int| r.heuristic_matches@[k].rule_name@));
    let mut typosquat_matches: Vec<String> = Vec::new();
    let nt = r.typosquat_matches.len();
    for i in 0..nt
        invariant
            nt == r.typosquat_matches@.len(),
            typosquat_matches@.len() == i,
            forall|k: int| 0 <= k < i ==> (#[trigger] typosquat_matches@[k])@ == r.typosquat_matches@[k].evidence@,
    {
        typosquat_matches.push(r.typosquat_matches[i].evidence.clone());
    }
    assert(string_views(typosquat_matches@) =~= Seq::new(nt as nat, |k: int| r.typosquat_matches@[k].evidence@));
    let yara_findings = match &r.yara_result {
        Some(y) => {
            let mut v: Vec<String> = Vec::new();
            let n = y.findings.len();
            for i in 0..n
                invariant
                    n == y.findings@.len(),
                    v@.len() == i,
                    forall|k: int| 0 <= k < i ==> (#[trigger] v@[k])@ == y.findings@[k].rule_name@ + ": "@ + y.findings@[k].description@,
            {
                let mut s = chars_of(y.findings[i].rule_name.as_str());
                append_all(&mut s, &chars_of(": "));
                append_all(&mut s, &chars_of(y.findings[i].description.as_str()));
                v.push(string_of(&s));
            }
            assert(string_views(v@) =~= Seq::new(n as nat, |k: int| y.findings@[k].rule_name@ + ": "@ + y.findings@[k].description@));
            Some(v)
        },
        None => None,
    };
    let llm_assessment = match &r.llm_analysis {
        Some(a) => Some(a.reasoning.clone()),
        None => None,
    };
    ScanEvidence {
        heuristic_matches,
        typosquat_matches,
        yara_findings,
        llm_assessment,
        recommendation: Some(r.recommendation.clone()),
    }
}

/// Convert a finding (and, when linked, its analysis report) into an OSM
/// report. The indicator and reported-to fields are the finding's stored
/// JSON, as already parsed (`None` where absent or unreadable).
pub fn to_osm_report(
    finding: &Finding,
    report: Option<&AnalysisReport>,
    ioc: Option<IocData>,
    reported_to: Option<ReportedTo>,
) -> (r: OpenSourceMalwareReport)
    ensures
        r.id == finding.id && r.ecosystem == finding.ecosystem && r.name == finding.name,
        r.version == finding.version && r.sha256 == finding.sha256,
        r.status@ == finding_status_name(finding.status),
        r.severity == finding.severity && r.classification == finding.classification && r.score
            == finding.score,
        r.first_seen == finding.first_seen && r.last_updated == finding.last_updated,
        r.ioc == ioc && r.reported_to == reported_to,
        r.payload_excerpt == finding.payload_excerpt && r.analyst_notes == finding.analyst_notes,
        match report {
            Some(rep) => r.scan_evidence matches Some(e) && evidence_of(*rep, e),
            None => r.scan_evidence is None,
        },
{
    let scan_evidence = match report {
        Some(rep) => Some(scan_evidence(rep)),
        None => None,
    };
    OpenSourceMalwareReport {
        id: finding.id,
        ecosystem: finding.ecosystem.clone(),
        name: finding.name.clone(),
        version: finding.version.clone(),
        sha256: finding.sha256.clone(),
        status: finding.status.as_str().to_owned(),
        severity: finding.severity,
        classification: finding.classification.clone(),
        score: finding.score,
        first_seen: finding.first_seen.clone(),
        last_updated: finding.last_updated.clone(),
        ioc,
        payload_excerpt: finding.payload_excerpt.clone(),
        analyst_notes: finding.analyst_notes.clone(),
        reported_to,
        scan_evidence,
    }
}

} // verus!
