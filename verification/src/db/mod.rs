//! Storage model: package processing states, filters over the stored
//! reports, findings, quarantined packages and audit entries, and the SQL
//! each filter becomes.
pub mod audit;
pub mod findings;
pub mod placeholders;
pub mod quarantine;
pub mod query;

use vstd::prelude::*;
use crate::db::query::{bind_flag, bind_like, bind_text, bind_u8, clause_if, page_clause, QueryBuilder, SqlQuery};
use crate::text::{append_all, chars_eq, chars_of, decimal, decimal_chars, string_of, string_views};

verus! {

/// Where a package is in the analysis pipeline.
#[derive(Debug, Clone, Copy, PartialEq, Eq, Structural)]
pub enum PackageStatus {
    Queued,
    Heuristics,
    Typosquat,
    Yara,
    Llm,
    Completed,
    Failed,
}

/// The stored name of a package status.
pub open spec fn package_status_name(s: PackageStatus) -> Seq<char> {
    match s {
        PackageStatus::Queued => "queued"@,
        PackageStatus::Heuristics => "heuristics"@,
        PackageStatus::Typosquat => "typosquat"@,
        PackageStatus::Yara => "yara"@,
        PackageStatus::Llm => "llm"@,
        PackageStatus::Completed => "completed"@,
        PackageStatus::Failed => "failed"@,
    }
}

/// The package status a stored name stands for; `guarddog`, the name of
/// the code-scanning stage before YARA replaced it, stands for `yara`.
pub open spec fn package_status_named(x: Seq<char>) -> Option<PackageStatus> {
    if x == "queued"@ {
        Some(PackageStatus::Queued)
    } else if x == "heuristics"@ {
        Some(PackageStatus::Heuristics)
    } else if x == "typosquat"@ {
        Some(PackageStatus::Typosquat)
    } else if x == "yara"@ || x == "guarddog"@ {
        Some(PackageStatus::Yara)
    } else if x == "llm"@ {
        Some(PackageStatus::Llm)
    } else if x == "completed"@ {
        Some(PackageStatus::Completed)
    } else if x == "failed"@ {
        Some(PackageStatus::Failed)
    } else {
        None
    }
}

impl PackageStatus {
    /// The stored name of the status.
    pub fn as_str(&self) -> (r: &'static str)
        ensures
            r@ == package_status_name(*self),
    {
        match self {
            PackageStatus::Queued => "queued",
            PackageStatus::Heuristics => "heuristics",
            PackageStatus::Typosquat => "typosquat",
            PackageStatus::Yara => "yara",
            PackageStatus::Llm => "llm",
            PackageStatus::Completed => "completed",
            PackageStatus::Failed => "failed",
        }
    }

    /// The status a stored name stands for, or an error naming the text.
    pub fn from_str(s: &str) -> (r: Result<PackageStatus, String>)
        ensures
            match package_status_named(s@) {
                Some(st) => r matches Ok(x) && x == st,
                None => r matches Err(e) && e@ == "Unknown package status: "@ + s@,
            },
    {
        let c = chars_of(s);
        if chars_eq(&c, &chars_of("queued")) {
            Ok(PackageStatus::Queued)
        } else if chars_eq(&c, &chars_of("heuristics")) {
            Ok(PackageStatus::Heuristics)
        } else if chars_eq(&c, &chars_of("typosquat")) {
            Ok(PackageStatus::Typosquat)
        } else if chars_eq(&c, &chars_of("yara")) || chars_eq(&c, &chars_of("guarddog")) {
            Ok(PackageStatus::Yara)
        } else if chars_eq(&c, &chars_of("llm")) {
            Ok(PackageStatus::Llm)
        } else if chars_eq(&c, &chars_of("completed")) {
            Ok(PackageStatus::Completed)
        } else if chars_eq(&c, &chars_of("failed")) {
            Ok(PackageStatus::Failed)
        } else {
            let mut m = chars_of("Unknown package status: ");
            append_all(&mut m, &c);
            Err(string_of(&m))
        }
    }

    /// The stage recorded for the status: none once the package is done.
    pub fn current_stage(&self) -> (r: Option<&'static str>)
        ensures
            match *self {
                PackageStatus::Completed | PackageStatus::Failed => r is None,
                _ => r matches Some(x) && x@ == package_status_name(*self),
            },
    {
        match self {
            PackageStatus::Completed | PackageStatus::Failed => None,
            _ => Some(self.as_str()),
        }
    }
}

/// Parsing the stored name of a package status gives the status back, and
/// a name that parses is the stored name of what it parses to, but for the
/// retired `guarddog`, which parses to `yara`.
pub proof fn law_package_status_round_trip(s: PackageStatus, x: Seq<char>)
    ensures
        package_status_named(package_status_name(s)) == Some(s),
        package_status_named(x) matches Some(t) ==> (package_status_name(t) == x || (x == "guarddog"@
            && t == PackageStatus::Yara)),
{
    reveal_strlit("queued");
    reveal_strlit("heuristics");
    reveal_strlit("typosquat");
    reveal_strlit("yara");
    reveal_strlit("guarddog");
    reveal_strlit("llm");
    reveal_strlit("completed");
    reveal_strlit("failed");
    assert("queued"@.len() == 6);
    assert("heuristics"@.len() == 10);
    assert("typosquat"@.len() == 9);
    assert("yara"@.len() == 4);
    assert("guarddog"@.len() == 8);
    assert("llm"@.len() == 3);
    assert("completed"@.len() == 9);
    assert("failed"@.len() == 6);
    assert("queued"@[0] != "failed"@[0]);
    assert("typosquat"@[0] != "completed"@[0]);
}

/// Which stored reports to list.
#[derive(Debug, Default, Clone)]
pub struct QueryFilters {
    pub min_severity: Option<u8>,
    pub max_severity: Option<u8>,
    pub recommendation: Option<String>,
    pub is_malicious: Option<bool>,
    pub package_name: Option<String>,
    pub limit: Option<i64>,
    pub offset: Option<i64>,
}

/// The conditions of a report filter.
pub open spec fn reports_where(f: QueryFilters) -> Seq<char> {
    clause_if(f.min_severity is Some, " AND severity >= ?"@) + clause_if(
        f.max_severity is Some,
        " AND severity <= ?"@,
    ) + clause_if(f.recommendation is Some, " AND recommendation = ?"@) + clause_if(
        f.is_malicious is Some,
        " AND is_malicious = ?"@,
    ) + clause_if(f.package_name is Some, " AND package_name LIKE ?"@)
}

/// The parameters of a report filter, in the order of its conditions.
pub open spec fn reports_bindings(f: QueryFilters) -> Seq<Seq<char>> {
    bind_u8(f.min_severity) + bind_u8(f.max_severity) + bind_text(f.recommendation) + bind_flag(
        f.is_malicious,
    ) + bind_like(f.package_name)
}

#[verifier::rlimit(60)]
fn add_report_filters(q: &mut QueryBuilder, f: &QueryFilters)
    ensures
        final(q).sql@ == old(q).sql@ + reports_where(*f),
        string_views(final(q).bindings@) == string_views(old(q).bindings@) + reports_bindings(*f),
{
    let ghost s0 = q.sql@;
    let ghost b0 = string_views(q.bindings@);
    q.u8_filter(" AND severity >= ?", f.min_severity);
    q.u8_filter(" AND severity <= ?", f.max_severity);
    let ghost s2 = q.sql@;
    let ghost b2 = string_views(q.bindings@);
    assert(s2 =~= s0 + (clause_if(f.min_severity is Some, " AND severity >= ?"@) + clause_if(
        f.max_severity is Some,
        " AND severity <= ?"@,
    )));
    assert(b2 =~= b0 + (bind_u8(f.min_severity) + bind_u8(f.max_severity)));
    q.text_filter(" AND recommendation = ?", &f.recommendation);
    q.flag_filter(" AND is_malicious = ?", f.is_malicious);
    q.like_filter(" AND package_name LIKE ?", &f.package_name);
    let ghost s5 = q.sql@;
    let ghost b5 = string_views(q.bindings@);
    assert(s5 =~= s2 + (clause_if(f.recommendation is Some, " AND recommendation = ?"@) + clause_if(
        f.is_malicious is Some,
        " AND is_malicious = ?"@,
    ) + clause_if(f.package_name is Some, " AND package_name LIKE ?"@)));
    assert(b5 =~= b2 + (bind_text(f.recommendation) + bind_flag(f.is_malicious) + bind_like(
        f.package_name,
    )));
    assert(s5 =~= s0 + reports_where(*f));
    assert(b5 =~= b0 + reports_bindings(*f));
}

/// The query listing stored reports, newest first.
pub fn reports_query(f: &QueryFilters) -> (r: SqlQuery)
    ensures
        r.sql@ == "SELECT report_json FROM analysis_reports WHERE 1=1"@ + reports_where(*f)
            + " ORDER BY timestamp DESC"@ + page_clause(f.limit, f.offset),
        string_views(r.bindings@) == reports_bindings(*f),
{
    let mut q = QueryBuilder::new("SELECT report_json FROM analysis_reports WHERE 1=1");
    assert(string_views(q.bindings@) =~= Seq::<Seq<char>>::empty());
    add_report_filters(&mut q, f);
    q.text(" ORDER BY timestamp DESC");
    q.page(f.limit, f.offset);
    let r = q.finish();
    assert(r.sql@ =~= "SELECT report_json FROM analysis_reports WHERE 1=1"@ + reports_where(*f)
        + " ORDER BY timestamp DESC"@ + page_clause(f.limit, f.offset));
    assert(string_views(r.bindings@) =~= reports_bindings(*f));
    r
}

/// The query counting stored reports.
pub fn reports_count_query(f: &QueryFilters) -> (r: SqlQuery)
    ensures
        r.sql@ == "SELECT COUNT(*) as count FROM analysis_reports WHERE 1=1"@ + reports_where(*f),
        string_views(r.bindings@) == reports_bindings(*f),
{
    let mut q = QueryBuilder::new("SELECT COUNT(*) as count FROM analysis_reports WHERE 1=1");
    assert(string_views(q.bindings@) =~= Seq::<Seq<char>>::empty());
    add_report_filters(&mut q, f);
    let r = q.finish();
    assert(string_views(r.bindings@) =~= reports_bindings(*f));
    r
}

} // verus!
