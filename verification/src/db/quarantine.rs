//! Quarantined packages: archives kept on disk for investigation.
use vstd::prelude::*;
use crate::db::query::{bind_int, bind_like, bind_text, clause_if, page_clause, QueryBuilder, SqlQuery};
use crate::text::string_views;

verus! {

/// A package whose archive was saved for investigation.
#[derive(Debug, Clone)]
pub struct QuarantinedPackage {
    pub id: i64,
    pub package_name: String,
    pub package_version: Option<String>,
    pub ecosystem: String,
    pub severity: i64,
    pub recommendation: String,
    pub archive_path: String,
    pub archive_size: Option<i64>,
    pub metadata_path: Option<String>,
    pub quarantined_at: String,
    pub report_id: Option<i64>,
}

/// Which quarantined packages to list.
#[derive(Debug, Default, Clone)]
pub struct QuarantineFilters {
    pub ecosystem: Option<String>,
    pub package_name: Option<String>,
    pub min_severity: Option<i64>,
    pub since: Option<String>,
    pub limit: Option<i64>,
    pub offset: Option<i64>,
}

/// The conditions of a quarantine filter.
pub open spec fn quarantine_where(f: QuarantineFilters) -> Seq<char> {
    clause_if(f.ecosystem is Some, " AND ecosystem = ?"@) + clause_if(
        f.package_name is Some,
        " AND package_name LIKE ?"@,
    ) + clause_if(f.min_severity is Some, " AND severity >= ?"@) + clause_if(
        f.since is Some,
        " AND quarantined_at >= ?"@,
    )
}

/// The parameters of a quarantine filter, in the order of its conditions.
pub open spec fn quarantine_bindings(f: QuarantineFilters) -> Seq<Seq<char>> {
    bind_text(f.ecosystem) + bind_like(f.package_name) + bind_int(f.min_severity) + bind_text(
        f.since,
    )
}

/// The columns a quarantined package is read from.
pub const QUARANTINE_SELECT: &'static str = "SELECT id, package_name, package_version, ecosystem, severity, recommendation, archive_path, archive_size, metadata_path, quarantined_at, report_id FROM quarantined_packages WHERE 1=1";

fn add_quarantine_filters(q: &mut QueryBuilder, f: &QuarantineFilters)
    ensures
        final(q).sql@ == old(q).sql@ + quarantine_where(*f),
        string_views(final(q).bindings@) == string_views(old(q).bindings@) + quarantine_bindings(*f),
{
    let ghost s0 = q.sql@;
    let ghost b0 = string_views(q.bindings@);
    q.text_filter(" AND ecosystem = ?", &f.ecosystem);
    q.like_filter(" AND package_name LIKE ?", &f.package_name);
    q.int_filter(" AND severity >= ?", f.min_severity);
    q.text_filter(" AND quarantined_at >= ?", &f.since);
    assert(q.sql@ =~= s0 + quarantine_where(*f));
    assert(string_views(q.bindings@) =~= b0 + quarantine_bindings(*f));
}

/// The query listing quarantined packages, most recent first.
pub fn quarantine_query(f: &QuarantineFilters) -> (r: SqlQuery)
    ensures
        r.sql@ == QUARANTINE_SELECT@ + quarantine_where(*f) + " ORDER BY quarantined_at DESC"@
            + page_clause(f.limit, f.offset),
        string_views(r.bindings@) == quarantine_bindings(*f),
{
    let mut q = QueryBuilder::new(QUARANTINE_SELECT);
    assert(string_views(q.bindings@) =~= Seq::<Seq<char>>::empty());
    add_quarantine_filters(&mut q, f);
    q.text(" ORDER BY quarantined_at DESC");
    q.page(f.limit, f.offset);
    let r = q.finish();
    assert(r.sql@ =~= QUARANTINE_SELECT@ + quarantine_where(*f) + " ORDER BY quarantined_at DESC"@
        + page_clause(f.limit, f.offset));
    assert(string_views(r.bindings@) =~= quarantine_bindings(*f));
    r
}

/// The query counting quarantined packages.
pub fn quarantine_count_query(f: &QuarantineFilters) -> (r: SqlQuery)
    ensures
        r.sql@ == "SELECT COUNT(*) as count FROM quarantined_packages WHERE 1=1"@ + quarantine_where(
            *f,
        ),
        string_views(r.bindings@) == quarantine_bindings(*f),
{
    let mut q = QueryBuilder::new("SELECT COUNT(*) as count FROM quarantined_packages WHERE 1=1");
    assert(string_views(q.bindings@) =~= Seq::<Seq<char>>::empty());
    add_quarantine_filters(&mut q, f);
    let r = q.finish();
    assert(string_views(r.bindings@) =~= quarantine_bindings(*f));
    r
}

} // verus!
