//! Audit log: the record of analyst actions.
use vstd::prelude::*;
use crate::db::query::{bind_int, bind_text, clause_if, QueryBuilder, SqlQuery};
use crate::text::{signed_decimal, signed_decimal_chars, string_of, string_views, append_all, chars_of};

verus! {

/// One analyst action.
#[derive(Debug, Clone)]
pub struct AuditEntry {
    pub id: i64,
    pub timestamp: String,
    pub action: String,
    pub entity_type: String,
    pub entity_id: i64,
    pub old_value: Option<String>,
    pub new_value: Option<String>,
    pub details: Option<String>,
    pub actor: String,
}

/// Which audit entries to list.
#[derive(Debug, Default, Clone)]
pub struct AuditFilters {
    pub action: Option<String>,
    pub entity_type: Option<String>,
    pub entity_id: Option<i64>,
    pub since: Option<String>,
    pub limit: Option<i64>,
    pub offset: Option<i64>,
}

/// Most entries one page may hold.
pub const AUDIT_PAGE_MAX: i64 = 200;

/// Entries on a page when no limit is given.
pub const AUDIT_PAGE_DEFAULT: i64 = 50;

/// The conditions of an audit filter.
pub open spec fn audit_where(f: AuditFilters) -> Seq<char> {
    clause_if(f.action is Some, " AND action = ?"@) + clause_if(
        f.entity_type is Some,
        " AND entity_type = ?"@,
    ) + clause_if(f.entity_id is Some, " AND entity_id = ?"@) + clause_if(
        f.since is Some,
        " AND timestamp >= ?"@,
    )
}

/// The parameters of an audit filter, in the order of its conditions.
pub open spec fn audit_bindings(f: AuditFilters) -> Seq<Seq<char>> {
    bind_text(f.action) + bind_text(f.entity_type) + bind_int(f.entity_id) + bind_text(f.since)
}

/// The page of an audit listing: the limit capped at 200 (50 when none is
/// given), then the offset when given.
pub open spec fn audit_page(limit: Option<i64>, offset: Option<i64>) -> Seq<char> {
    (match limit {
        Some(l) => " LIMIT "@ + signed_decimal(if l < 200 {
            l as int
        } else {
            200
        }),
        None => " LIMIT 50"@,
    }) + (match offset {
        Some(o) => " OFFSET "@ + signed_decimal(o as int),
        None => Seq::empty(),
    })
}

fn add_audit_filters(q: &mut QueryBuilder, f: &AuditFilters)
    ensures
        final(q).sql@ == old(q).sql@ + audit_where(*f),
        string_views(final(q).bindings@) == string_views(old(q).bindings@) + audit_bindings(*f),
{
    let ghost s0 = q.sql@;
    let ghost b0 = string_views(q.bindings@);
    q.text_filter(" AND action = ?", &f.action);
    q.text_filter(" AND entity_type = ?", &f.entity_type);
    q.int_filter(" AND entity_id = ?", f.entity_id);
    q.text_filter(" AND timestamp >= ?", &f.since);
    assert(q.sql@ =~= s0 + audit_where(*f));
    assert(string_views(q.bindings@) =~= b0 + audit_bindings(*f));
}

/// The query listing audit entries, newest first, one page at a time.
pub fn audit_query(f: &AuditFilters) -> (r: SqlQuery)
    ensures
        r.sql@ == "SELECT id, timestamp, action, entity_type, entity_id, old_value, new_value, details, actor FROM audit_log WHERE 1=1"@
            + audit_where(*f) + " ORDER BY timestamp DESC"@ + audit_page(f.limit, f.offset),
        string_views(r.bindings@) == audit_bindings(*f),
{
    let mut q = QueryBuilder::new(
        "SELECT id, timestamp, action, entity_type, entity_id, old_value, new_value, details, actor FROM audit_log WHERE 1=1",
    );
    assert(string_views(q.bindings@) =~= Seq::<Seq<char>>::empty());
    add_audit_filters(&mut q, f);
    q.text(" ORDER BY timestamp DESC");
    let ghost s1 = q.sql@;
    match f.limit {
        Some(l) => {
            let capped = if l < AUDIT_PAGE_MAX {
                l
            } else {
                AUDIT_PAGE_MAX
            };
            q.text(" LIMIT ");
            append_all(&mut q.sql, &signed_decimal_chars(capped));
        },
        None => {
            q.text(" LIMIT 50");
        },
    }
    if let Some(o) = f.offset {
        q.text(" OFFSET ");
        append_all(&mut q.sql, &signed_decimal_chars(o));
    }
    assert(q.sql@ =~= s1 + audit_page(f.limit, f.offset));
    let r = q.finish();
    assert(string_views(r.bindings@) =~= audit_bindings(*f));
    r
}

/// The query counting audit entries.
pub fn audit_count_query(f: &AuditFilters) -> (r: SqlQuery)
    ensures
        r.sql@ == "SELECT COUNT(*) as count FROM audit_log WHERE 1=1"@ + audit_where(*f),
        string_views(r.bindings@) == audit_bindings(*f),
{
    let mut q = QueryBuilder::new("SELECT COUNT(*) as count FROM audit_log WHERE 1=1");
    assert(string_views(q.bindings@) =~= Seq::<Seq<char>>::empty());
    add_audit_filters(&mut q, f);
    let r = q.finish();
    assert(string_views(r.bindings@) =~= audit_bindings(*f));
    r
}

} // verus!
