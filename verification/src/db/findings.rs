//! Findings: the triage state of a flagged package, linked to the report
//! that holds the scan evidence.
use vstd::prelude::*;
use crate::db::query::{
    bind_int, bind_text, clause_if, page_clause, QueryBuilder, SqlQuery,
};
use crate::text::{append_all, chars_eq, chars_of, string_of, string_views};

verus! {

/// Where a finding stands in triage.
#[derive(Debug, Clone, Copy, PartialEq, Eq, Structural)]
pub enum FindingStatus {
    New,
    Triaging,
    ConfirmedMalicious,
    Benign,
    Reported,
    Duplicate,
}

/// The stored name of a status.
pub open spec fn finding_status_name(s: FindingStatus) -> Seq<char> {
    match s {
        FindingStatus::New => "new"@,
        FindingStatus::Triaging => "triaging"@,
        FindingStatus::ConfirmedMalicious => "confirmed_malicious"@,
        FindingStatus::Benign => "benign"@,
        FindingStatus::Reported => "reported"@,
        FindingStatus::Duplicate => "duplicate"@,
    }
}

/// The status a stored name stands for.
pub open spec fn finding_status_named(x: Seq<char>) -> Option<FindingStatus> {
    if x == "new"@ {
        Some(FindingStatus::New)
    } else if x == "triaging"@ {
        Some(FindingStatus::Triaging)
    } else if x == "confirmed_malicious"@ {
        Some(FindingStatus::ConfirmedMalicious)
    } else if x == "benign"@ {
        Some(FindingStatus::Benign)
    } else if x == "reported"@ {
        Some(FindingStatus::Reported)
    } else if x == "duplicate"@ {
        Some(FindingStatus::Duplicate)
    } else {
        None
    }
}

impl FindingStatus {
    /// The stored name of the status.
    pub fn as_str(&self) -> (r: &'static str)
        ensures
            r@ == finding_status_name(*self),
    {
        match self {
            FindingStatus::New => "new",
            FindingStatus::Triaging => "triaging",
            FindingStatus::ConfirmedMalicious => "confirmed_malicious",
            FindingStatus::Benign => "benign",
            FindingStatus::Reported => "reported",
            FindingStatus::Duplicate => "duplicate",
        }
    }

    /// The status a stored name stands for, or an error naming the text.
    pub fn from_name(s: &str) -> (r: Result<FindingStatus, String>)
        ensures
            match finding_status_named(s@) {
                Some(st) => r matches Ok(x) && x == st,
                None => r matches Err(e) && e@ == "Unknown finding status: "@ + s@,
            },
    {
        let c = chars_of(s);
        if chars_eq(&c, &chars_of("new")) {
            Ok(FindingStatus::New)
        } else if chars_eq(&c, &chars_of("triaging")) {
            Ok(FindingStatus::Triaging)
        } else if chars_eq(&c, &chars_of("confirmed_malicious")) {
            Ok(FindingStatus::ConfirmedMalicious)
        } else if chars_eq(&c, &chars_of("benign")) {
            Ok(FindingStatus::Benign)
        } else if chars_eq(&c, &chars_of("reported")) {
            Ok(FindingStatus::Reported)
        } else if chars_eq(&c, &chars_of("duplicate")) {
            Ok(FindingStatus::Duplicate)
        } else {
            let mut m = chars_of("Unknown finding status: ");
            append_all(&mut m, &c);
            Err(string_of(&m))
        }
    }
}

impl std::str::FromStr for FindingStatus {
    type Err = String;

    fn from_str(s: &str) -> (r: Result<FindingStatus, String>)
        ensures
            match finding_status_named(s@) {
                Some(st) => r matches Ok(x) && x == st,
                None => r matches Err(e) && e@ == "Unknown finding status: "@ + s@,
            },
    {
        FindingStatus::from_name(s)
    }
}

/// Parsing the stored name of a status gives the status back, and a name
/// that parses is the stored name of what it parses to.
pub proof fn law_finding_status_round_trip(s: FindingStatus, x: Seq<char>)
    ensures
        finding_status_named(finding_status_name(s)) == Some(s),
        finding_status_named(x) matches Some(t) ==> finding_status_name(t) == x,
{
    reveal_strlit("new");
    reveal_strlit("triaging");
    reveal_strlit("confirmed_malicious");
    reveal_strlit("benign");
    reveal_strlit("reported");
    reveal_strlit("duplicate");
    assert("new"@.len() == 3);
    assert("triaging"@.len() == 8);
    assert("confirmed_malicious"@.len() == 19);
    assert("benign"@.len() == 6);
    assert("reported"@.len() == 8);
    assert("duplicate"@.len() == 9);
    assert("triaging"@[0] != "reported"@[0]);
}

/// A flagged package and its triage state.
#[derive(Debug, Clone)]
pub struct Finding {
    pub id: i64,
    pub report_id: Option<i64>,
    pub ecosystem: String,
    pub name: String,
    pub version: Option<String>,
    pub sha256: Option<String>,
    pub first_seen: String,
    pub last_updated: String,
    pub status: FindingStatus,
    pub severity: i64,
    pub classification: Option<String>,
    pub score: i64,
    pub ioc: Option<String>,
    pub payload_excerpt: Option<String>,
    pub analyst_notes: Option<String>,
    pub reported_to: Option<String>,
}

/// Which findings to list.
#[derive(Debug, Default, Clone)]
pub struct FindingFilters {
    pub ecosystem: Option<String>,
    pub status: Option<String>,
    pub min_severity: Option<i64>,
    pub min_score: Option<i64>,
    pub since: Option<String>,
    pub limit: Option<i64>,
    pub offset: Option<i64>,
}

/// The triage fields an analyst changes; absent ones stay as they are.
#[derive(Debug, Default, Clone)]
pub struct FindingUpdate {
    pub status: Option<FindingStatus>,
    pub classification: Option<String>,
    pub analyst_notes: Option<String>,
    pub reported_to: Option<String>,
}

/// The columns a finding is read from.
pub const FINDINGS_SELECT: &'static str = "SELECT id, report_id, ecosystem, name, version, sha256, first_seen, last_updated, status, severity, classification, score, ioc, payload_excerpt, analyst_notes, reported_to FROM findings WHERE 1=1";

/// The conditions of a findings filter.
pub open spec fn findings_where(f: FindingFilters) -> Seq<char> {
    clause_if(f.ecosystem is Some, " AND ecosystem = ?"@) + clause_if(
        f.status is Some,
        " AND status = ?"@,
    ) + clause_if(f.min_severity is Some, " AND severity >= ?"@) + clause_if(
        f.min_score is Some,
        " AND score >= ?"@,
    ) + clause_if(f.since is Some, " AND first_seen >= ?"@)
}

/// The parameters of a findings filter, in the order of its conditions.
pub open spec fn findings_bindings(f: FindingFilters) -> Seq<Seq<char>> {
    bind_text(f.ecosystem) + bind_text(f.status) + bind_int(f.min_severity) + bind_int(f.min_score)
        + bind_text(f.since)
}

/// The query listing findings, most recently updated first.
pub fn findings_query(f: &FindingFilters) -> (r: SqlQuery)
    ensures
        r.sql@ == FINDINGS_SELECT@ + findings_where(*f) + " ORDER BY last_updated DESC"@
            + page_clause(f.limit, f.offset),
        string_views(r.bindings@) == findings_bindings(*f),
{
    let mut q = QueryBuilder::new(FINDINGS_SELECT);
    assert(string_views(q.bindings@) =~= Seq::<Seq<char>>::empty());
    q.text_filter(" AND ecosystem = ?", &f.ecosystem);
    q.text_filter(" AND status = ?", &f.status);
    q.int_filter(" AND severity >= ?", f.min_severity);
    q.int_filter(" AND score >= ?", f.min_score);
    q.text_filter(" AND first_seen >= ?", &f.since);
    q.text(" ORDER BY last_updated DESC");
    q.page(f.limit, f.offset);
    let r = q.finish();
    assert(r.sql@ =~= FINDINGS_SELECT@ + findings_where(*f) + " ORDER BY last_updated DESC"@
        + page_clause(f.limit, f.offset));
    assert(string_views(r.bindings@) =~= findings_bindings(*f));
    r
}

/// The assignments an update makes, in order.
pub open spec fn update_sets(u: FindingUpdate) -> Seq<Seq<char>> {
    (if u.status is Some {
        seq!["status = ?"@]
    } else {
        Seq::empty()
    }) + (if u.classification is Some {
        seq!["classification = ?"@]
    } else {
        Seq::empty()
    }) + (if u.analyst_notes is Some {
        seq!["analyst_notes = ?"@]
    } else {
        Seq::empty()
    }) + (if u.reported_to is Some {
        seq!["reported_to = ?"@]
    } else {
        Seq::empty()
    })
}

/// The values an update binds, in the order of its assignments.
pub open spec fn update_bindings(u: FindingUpdate) -> Seq<Seq<char>> {
    (match u.status {
        Some(s) => seq![finding_status_name(s)],
        None => Seq::empty(),
    }) + bind_text(u.classification) + bind_text(u.analyst_notes) + bind_text(u.reported_to)
}

/// Parts joined with a separator.
pub open spec fn join_with(parts: Seq<Seq<char>>, sep: Seq<char>) -> Seq<char>
    decreases parts.len(),
{
    if parts.len() == 0 {
        Seq::empty()
    } else if parts.len() == 1 {
        parts[0]
    } else {
        join_with(parts.drop_last(), sep) + sep + parts.last()
    }
}

/// The statement applying an update to the finding whose id is bound last:
/// `None` when the update changes nothing; otherwise its assignments and
/// the `last_updated` time.
#[verifier::spinoff_prover]
pub fn finding_update_query(u: &FindingUpdate, now: &str) -> (r: Option<SqlQuery>)
    ensures
        r is None <==> update_sets(*u).len() == 0,
        r matches Some(q) ==> q.sql@ == "UPDATE findings SET "@ + join_with(
            update_sets(*u).push("last_updated = ?"@),
            ", "@,
        ) + " WHERE id = ?"@ && string_views(q.bindings@) == update_bindings(*u).push(now@),
{
    let mut sets: Vec<String> = Vec::new();
    let mut bindings: Vec<String> = Vec::new();
    if let Some(st) = &u.status {
        sets.push("status = ?".to_owned());
        bindings.push(st.as_str().to_owned());
    }
    if let Some(c) = &u.classification {
        sets.push("classification = ?".to_owned());
        bindings.push(c.clone());
    }
    if let Some(n) = &u.analyst_notes {
        sets.push("analyst_notes = ?".to_owned());
        bindings.push(n.clone());
    }
    if let Some(rp) = &u.reported_to {
        sets.push("reported_to = ?".to_owned());
        bindings.push(rp.clone());
    }
    assert(string_views(sets@) =~= update_sets(*u));
    assert(string_views(bindings@) =~= update_bindings(*u));
    if sets.len() == 0 {
        return None;
    }
    sets.push("last_updated = ?".to_owned());
    bindings.push(now.to_owned());
    let ghost parts = string_views(sets@);
    assert(parts =~= update_sets(*u).push("last_updated = ?"@));
    let mut sql = chars_of("UPDATE findings SET ");
    let ghost head = sql@;
    let n = sets.len();
    for i in 0..n
        invariant
            n == sets@.len(),
            parts == string_views(sets@),
            sql@ == head + join_with(parts.take(i as int), ", "@),
    {
        let ghost before = sql@;
        if i > 0 {
            append_all(&mut sql, &chars_of(", "));
        }
        append_all(&mut sql, &chars_of(sets[i].as_str()));
        assert(parts.take(i + 1).drop_last() == parts.take(i as int));
        assert(parts.take(i + 1).last() == sets@[i as int]@);
        if i == 0 {
            assert(join_with(parts.take(1), ", "@) == parts[0]);
        }
        assert(sql@ =~= head + join_with(parts.take(i + 1), ", "@));
    }
    assert(parts.take(n as int) == parts);
    append_all(&mut sql, &chars_of(" WHERE id = ?"));
    assert(string_views(bindings@) =~= update_bindings(*u).push(now@));
    Some(SqlQuery { sql: string_of(&sql), bindings })
}

} // verus!
