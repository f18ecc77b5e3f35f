//! Every placeholder of a built query has exactly one bound value: the
//! number of `?` in the SQL text equals the number of parameters, whatever
//! the filter holds.
use vstd::prelude::*;
use crate::db::audit::{audit_bindings, audit_page, audit_where, AuditFilters};
use crate::db::findings::{findings_bindings, findings_where, FindingFilters, FINDINGS_SELECT};
use crate::db::quarantine::{quarantine_bindings, quarantine_where, QuarantineFilters, QUARANTINE_SELECT};
use crate::db::query::{clause_if, page_clause};
use crate::db::{reports_bindings, reports_where, QueryFilters};
use crate::text::{count_char, lemma_count_char_concat, lemma_signed_decimal_lacks, signed_decimal};

verus! {

proof fn lemma_findings_select()
    ensures
        count_char("SELECT id, report_id, ecosystem, name, version, sha256, first_seen, last_updated, status, severity, classification, score, ioc, payload_excerpt, analyst_notes, reported_to FROM findings WHERE 1=1"@, '?') == 0,
{
    reveal_strlit("SELECT id, report_id, ecosystem, name, version, sha256, first_seen, last_updated, status, severity, classification, score, ioc, payload_excerpt, analyst_notes, reported_to FROM findings WHERE 1=1");
    reveal_strlit("SELECT id, report_id, ecosystem, name,");
    reveal_strlit(" version, sha256, first_seen,");
    reveal_strlit(" last_updated, status, severity,");
    reveal_strlit(" classification, score, ioc,");
    reveal_strlit(" payload_excerpt, analyst_notes,");
    reveal_strlit(" reported_to FROM findings WHERE 1=1");
    assert("SELECT id, report_id, ecosystem, name, version, sha256, first_seen, last_updated, status, severity, classification, score, ioc, payload_excerpt, analyst_notes, reported_to FROM findings WHERE 1=1"@ =~= "SELECT id, report_id, ecosystem, name,"@ + " version, sha256, first_seen,"@ + " last_updated, status, severity,"@ + " classification, score, ioc,"@ + " payload_excerpt, analyst_notes,"@ + " reported_to FROM findings WHERE 1=1"@);
    assert(count_char("SELECT id, report_id, ecosystem, name,"@, '?') == 0) by {
        reveal_with_fuel(count_char, 40);
    }
    assert(count_char(" version, sha256, first_seen,"@, '?') == 0) by {
        reveal_with_fuel(count_char, 31);
    }
    assert(count_char(" last_updated, status, severity,"@, '?') == 0) by {
        reveal_with_fuel(count_char, 34);
    }
    assert(count_char(" classification, score, ioc,"@, '?') == 0) by {
        reveal_with_fuel(count_char, 30);
    }
    assert(count_char(" payload_excerpt, analyst_notes,"@, '?') == 0) by {
        reveal_with_fuel(count_char, 34);
    }
    assert(count_char(" reported_to FROM findings WHERE 1=1"@, '?') == 0) by {
        reveal_with_fuel(count_char, 38);
    }
    lemma_count_char_concat("SELECT id, report_id, ecosystem, name,"@, " version, sha256, first_seen,"@, '?');
    lemma_count_char_concat("SELECT id, report_id, ecosystem, name,"@ + " version, sha256, first_seen,"@, " last_updated, status, severity,"@, '?');
    lemma_count_char_concat("SELECT id, report_id, ecosystem, name,"@ + " version, sha256, first_seen,"@ + " last_updated, status, severity,"@, " classification, score, ioc,"@, '?');
    lemma_count_char_concat("SELECT id, report_id, ecosystem, name,"@ + " version, sha256, first_seen,"@ + " last_updated, status, severity,"@ + " classification, score, ioc,"@, " payload_excerpt, analyst_notes,"@, '?');
    lemma_count_char_concat("SELECT id, report_id, ecosystem, name,"@ + " version, sha256, first_seen,"@ + " last_updated, status, severity,"@ + " classification, score, ioc,"@ + " payload_excerpt, analyst_notes,"@, " reported_to FROM findings WHERE 1=1"@, '?');
}

proof fn lemma_quarantine_select()
    ensures
        count_char("SELECT id, package_name, package_version, ecosystem, severity, recommendation, archive_path, archive_size, metadata_path, quarantined_at, report_id FROM quarantined_packages WHERE 1=1"@, '?') == 0,
{
    reveal_strlit("SELECT id, package_name, package_version, ecosystem, severity, recommendation, archive_path, archive_size, metadata_path, quarantined_at, report_id FROM quarantined_packages WHERE 1=1");
    reveal_strlit("SELECT id, package_name,");
    reveal_strlit(" package_version, ecosystem, severity,");
    reveal_strlit(" recommendation, archive_path,");
    reveal_strlit(" archive_size, metadata_path,");
    reveal_strlit(" quarantined_at, report_id FROM");
    reveal_strlit(" quarantined_packages WHERE 1=1");
    assert("SELECT id, package_name, package_version, ecosystem, severity, recommendation, archive_path, archive_size, metadata_path, quarantined_at, report_id FROM quarantined_packages WHERE 1=1"@ =~= "SELECT id, package_name,"@ + " package_version, ecosystem, severity,"@ + " recommendation, archive_path,"@ + " archive_size, metadata_path,"@ + " quarantined_at, report_id FROM"@ + " quarantined_packages WHERE 1=1"@);
    assert(count_char("SELECT id, package_name,"@, '?') == 0) by {
        reveal_with_fuel(count_char, 26);
    }
    assert(count_char(" package_version, ecosystem, severity,"@, '?') == 0) by {
        reveal_with_fuel(count_char, 40);
    }
    assert(count_char(" recommendation, archive_path,"@, '?') == 0) by {
        reveal_with_fuel(count_char, 32);
    }
    assert(count_char(" archive_size, metadata_path,"@, '?') == 0) by {
        reveal_with_fuel(count_char, 31);
    }
    assert(count_char(" quarantined_at, report_id FROM"@, '?') == 0) by {
        reveal_with_fuel(count_char, 33);
    }
    assert(count_char(" quarantined_packages WHERE 1=1"@, '?') == 0) by {
        reveal_with_fuel(count_char, 33);
    }
    lemma_count_char_concat("SELECT id, package_name,"@, " package_version, ecosystem, severity,"@, '?');
    lemma_count_char_concat("SELECT id, package_name,"@ + " package_version, ecosystem, severity,"@, " recommendation, archive_path,"@, '?');
    lemma_count_char_concat("SELECT id, package_name,"@ + " package_version, ecosystem, severity,"@ + " recommendation, archive_path,"@, " archive_size, metadata_path,"@, '?');
    lemma_count_char_concat("SELECT id, package_name,"@ + " package_version, ecosystem, severity,"@ + " recommendation, archive_path,"@ + " archive_size, metadata_path,"@, " quarantined_at, report_id FROM"@, '?');
    lemma_count_char_concat("SELECT id, package_name,"@ + " package_version, ecosystem, severity,"@ + " recommendation, archive_path,"@ + " archive_size, metadata_path,"@ + " quarantined_at, report_id FROM"@, " quarantined_packages WHERE 1=1"@, '?');
}

proof fn lemma_audit_select()
    ensures
        count_char("SELECT id, timestamp, action, entity_type, entity_id, old_value, new_value, details, actor FROM audit_log WHERE 1=1"@, '?') == 0,
{
    reveal_strlit("SELECT id, timestamp, action, entity_type, entity_id, old_value, new_value, details, actor FROM audit_log WHERE 1=1");
    reveal_strlit("SELECT id, timestamp, action,");
    reveal_strlit(" entity_type, entity_id, old_value,");
    reveal_strlit(" new_value, details, actor FROM");
    reveal_strlit(" audit_log WHERE 1=1");
    assert("SELECT id, timestamp, action, entity_type, entity_id, old_value, new_value, details, actor FROM audit_log WHERE 1=1"@ =~= "SELECT id, timestamp, action,"@ + " entity_type, entity_id, old_value,"@ + " new_value, details, actor FROM"@ + " audit_log WHERE 1=1"@);
    assert(count_char("SELECT id, timestamp, action,"@, '?') == 0) by {
        reveal_with_fuel(count_char, 31);
    }
    assert(count_char(" entity_type, entity_id, old_value,"@, '?') == 0) by {
        reveal_with_fuel(count_char, 37);
    }
    assert(count_char(" new_value, details, actor FROM"@, '?') == 0) by {
        reveal_with_fuel(count_char, 33);
    }
    assert(count_char(" audit_log WHERE 1=1"@, '?') == 0) by {
        reveal_with_fuel(count_char, 22);
    }
    lemma_count_char_concat("SELECT id, timestamp, action,"@, " entity_type, entity_id, old_value,"@, '?');
    lemma_count_char_concat("SELECT id, timestamp, action,"@ + " entity_type, entity_id, old_value,"@, " new_value, details, actor FROM"@, '?');
    lemma_count_char_concat("SELECT id, timestamp, action,"@ + " entity_type, entity_id, old_value,"@ + " new_value, details, actor FROM"@, " audit_log WHERE 1=1"@, '?');
}

proof fn lemma_reports_select()
    ensures
        count_char("SELECT report_json FROM analysis_reports WHERE 1=1"@, '?') == 0,
{
    reveal_strlit("SELECT report_json FROM analysis_reports WHERE 1=1");
    reveal_strlit("SELECT report_json FROM analysis_reports");
    reveal_strlit(" WHERE 1=1");
    assert("SELECT report_json FROM analysis_reports WHERE 1=1"@ =~= "SELECT report_json FROM analysis_reports"@ + " WHERE 1=1"@);
    assert(count_char("SELECT report_json FROM analysis_reports"@, '?') == 0) by {
        reveal_with_fuel(count_char, 42);
    }
    assert(count_char(" WHERE 1=1"@, '?') == 0) by {
        reveal_with_fuel(count_char, 12);
    }
    lemma_count_char_concat("SELECT report_json FROM analysis_reports"@, " WHERE 1=1"@, '?');
}

proof fn lemma_reports_count()
    ensures
        count_char("SELECT COUNT(*) as count FROM analysis_reports WHERE 1=1"@, '?') == 0,
{
    reveal_strlit("SELECT COUNT(*) as count FROM analysis_reports WHERE 1=1");
    reveal_strlit("SELECT COUNT(*) as count FROM");
    reveal_strlit(" analysis_reports WHERE 1=1");
    assert("SELECT COUNT(*) as count FROM analysis_reports WHERE 1=1"@ =~= "SELECT COUNT(*) as count FROM"@ + " analysis_reports WHERE 1=1"@);
    assert(count_char("SELECT COUNT(*) as count FROM"@, '?') == 0) by {
        reveal_with_fuel(count_char, 31);
    }
    assert(count_char(" analysis_reports WHERE 1=1"@, '?') == 0) by {
        reveal_with_fuel(count_char, 29);
    }
    lemma_count_char_concat("SELECT COUNT(*) as count FROM"@, " analysis_reports WHERE 1=1"@, '?');
}

proof fn lemma_quarantine_count()
    ensures
        count_char("SELECT COUNT(*) as count FROM quarantined_packages WHERE 1=1"@, '?') == 0,
{
    reveal_strlit("SELECT COUNT(*) as count FROM quarantined_packages WHERE 1=1");
    reveal_strlit("SELECT COUNT(*) as count FROM");
    reveal_strlit(" quarantined_packages WHERE 1=1");
    assert("SELECT COUNT(*) as count FROM quarantined_packages WHERE 1=1"@ =~= "SELECT COUNT(*) as count FROM"@ + " quarantined_packages WHERE 1=1"@);
    assert(count_char("SELECT COUNT(*) as count FROM"@, '?') == 0) by {
        reveal_with_fuel(count_char, 31);
    }
    assert(count_char(" quarantined_packages WHERE 1=1"@, '?') == 0) by {
        reveal_with_fuel(count_char, 33);
    }
    lemma_count_char_concat("SELECT COUNT(*) as count FROM"@, " quarantined_packages WHERE 1=1"@, '?');
}

proof fn lemma_audit_count()
    ensures
        count_char("SELECT COUNT(*) as count FROM audit_log WHERE 1=1"@, '?') == 0,
{
    reveal_strlit("SELECT COUNT(*) as count FROM audit_log WHERE 1=1");
    reveal_strlit("SELECT COUNT(*) as count FROM audit_log");
    reveal_strlit(" WHERE 1=1");
    assert("SELECT COUNT(*) as count FROM audit_log WHERE 1=1"@ =~= "SELECT COUNT(*) as count FROM audit_log"@ + " WHERE 1=1"@);
    assert(count_char("SELECT COUNT(*) as count FROM audit_log"@, '?') == 0) by {
        reveal_with_fuel(count_char, 41);
    }
    assert(count_char(" WHERE 1=1"@, '?') == 0) by {
        reveal_with_fuel(count_char, 12);
    }
    lemma_count_char_concat("SELECT COUNT(*) as count FROM audit_log"@, " WHERE 1=1"@, '?');
}

proof fn lemma_by_updated()
    ensures
        count_char(" ORDER BY last_updated DESC"@, '?') == 0,
{
    reveal_strlit(" ORDER BY last_updated DESC");
    reveal_with_fuel(count_char, 29);
}

proof fn lemma_by_timestamp()
    ensures
        count_char(" ORDER BY timestamp DESC"@, '?') == 0,
{
    reveal_strlit(" ORDER BY timestamp DESC");
    reveal_with_fuel(count_char, 26);
}

proof fn lemma_by_quarantined()
    ensures
        count_char(" ORDER BY quarantined_at DESC"@, '?') == 0,
{
    reveal_strlit(" ORDER BY quarantined_at DESC");
    reveal_with_fuel(count_char, 31);
}

proof fn lemma_limit()
    ensures
        count_char(" LIMIT "@, '?') == 0,
{
    reveal_strlit(" LIMIT ");
    reveal_with_fuel(count_char, 9);
}

proof fn lemma_limit_default()
    ensures
        count_char(" LIMIT 50"@, '?') == 0,
{
    reveal_strlit(" LIMIT 50");
    reveal_with_fuel(count_char, 11);
}

proof fn lemma_offset()
    ensures
        count_char(" OFFSET "@, '?') == 0,
{
    reveal_strlit(" OFFSET ");
    reveal_with_fuel(count_char, 10);
}

proof fn lemma_ecosystem_eq()
    ensures
        count_char(" AND ecosystem = ?"@, '?') == 1,
{
    reveal_strlit(" AND ecosystem = ?");
    reveal_with_fuel(count_char, 20);
}

proof fn lemma_status_eq()
    ensures
        count_char(" AND status = ?"@, '?') == 1,
{
    reveal_strlit(" AND status = ?");
    reveal_with_fuel(count_char, 17);
}

proof fn lemma_severity_ge()
    ensures
        count_char(" AND severity >= ?"@, '?') == 1,
{
    reveal_strlit(" AND severity >= ?");
    reveal_with_fuel(count_char, 20);
}

proof fn lemma_severity_le()
    ensures
        count_char(" AND severity <= ?"@, '?') == 1,
{
    reveal_strlit(" AND severity <= ?");
    reveal_with_fuel(count_char, 20);
}

proof fn lemma_score_ge()
    ensures
        count_char(" AND score >= ?"@, '?') == 1,
{
    reveal_strlit(" AND score >= ?");
    reveal_with_fuel(count_char, 17);
}

proof fn lemma_first_seen_ge()
    ensures
        count_char(" AND first_seen >= ?"@, '?') == 1,
{
    reveal_strlit(" AND first_seen >= ?");
    reveal_with_fuel(count_char, 22);
}

proof fn lemma_recommendation_eq()
    ensures
        count_char(" AND recommendation = ?"@, '?') == 1,
{
    reveal_strlit(" AND recommendation = ?");
    reveal_with_fuel(count_char, 25);
}

proof fn lemma_malicious_eq()
    ensures
        count_char(" AND is_malicious = ?"@, '?') == 1,
{
    reveal_strlit(" AND is_malicious = ?");
    reveal_with_fuel(count_char, 23);
}

proof fn lemma_name_like()
    ensures
        count_char(" AND package_name LIKE ?"@, '?') == 1,
{
    reveal_strlit(" AND package_name LIKE ?");
    reveal_with_fuel(count_char, 26);
}

proof fn lemma_quarantined_ge()
    ensures
        count_char(" AND quarantined_at >= ?"@, '?') == 1,
{
    reveal_strlit(" AND quarantined_at >= ?");
    reveal_with_fuel(count_char, 26);
}

proof fn lemma_action_eq()
    ensures
        count_char(" AND action = ?"@, '?') == 1,
{
    reveal_strlit(" AND action = ?");
    reveal_with_fuel(count_char, 17);
}

proof fn lemma_entity_type_eq()
    ensures
        count_char(" AND entity_type = ?"@, '?') == 1,
{
    reveal_strlit(" AND entity_type = ?");
    reveal_with_fuel(count_char, 22);
}

proof fn lemma_entity_id_eq()
    ensures
        count_char(" AND entity_id = ?"@, '?') == 1,
{
    reveal_strlit(" AND entity_id = ?");
    reveal_with_fuel(count_char, 20);
}

proof fn lemma_timestamp_ge()
    ensures
        count_char(" AND timestamp >= ?"@, '?') == 1,
{
    reveal_strlit(" AND timestamp >= ?");
    reveal_with_fuel(count_char, 21);
}
/// A present condition adds one placeholder, an absent one none.
proof fn lemma_clause(present: bool, fragment: Seq<char>, k: nat)
    requires
        count_char(fragment, '?') == k,
    ensures
        count_char(clause_if(present, fragment), '?') == if present {
            k
        } else {
            0
        },
{
}

/// A number written out holds no placeholder.
proof fn lemma_number(prefix: Seq<char>, n: int)
    requires
        count_char(prefix, '?') == 0,
    ensures
        count_char(prefix + signed_decimal(n), '?') == 0,
{
    lemma_signed_decimal_lacks(n, '?');
    lemma_count_char_concat(prefix, signed_decimal(n), '?');
}

/// The paging clause holds no placeholder.
proof fn lemma_page(limit: Option<i64>, offset: Option<i64>)
    ensures
        count_char(page_clause(limit, offset), '?') == 0,
{
    lemma_limit();
    lemma_offset();
    let a = match limit {
        Some(l) => " LIMIT "@ + signed_decimal(l as int),
        None => Seq::<char>::empty(),
    };
    let b = match offset {
        Some(o) => " OFFSET "@ + signed_decimal(o as int),
        None => Seq::<char>::empty(),
    };
    if let Some(l) = limit {
        lemma_number(" LIMIT "@, l as int);
    }
    if let Some(o) = offset {
        lemma_number(" OFFSET "@, o as int);
    }
    lemma_count_char_concat(a, b, '?');
}

/// Four pieces, counted piece by piece.
proof fn lemma_count4(a: Seq<char>, b: Seq<char>, c: Seq<char>, d: Seq<char>)
    ensures
        count_char(a + b + c + d, '?') == count_char(a, '?') + count_char(b, '?') + count_char(c, '?')
            + count_char(d, '?'),
{
    lemma_count_char_concat(a, b, '?');
    lemma_count_char_concat(a + b, c, '?');
    lemma_count_char_concat(a + b + c, d, '?');
}

/// Five pieces, counted piece by piece.
proof fn lemma_count5(a: Seq<char>, b: Seq<char>, c: Seq<char>, d: Seq<char>, e: Seq<char>)
    ensures
        count_char(a + b + c + d + e, '?') == count_char(a, '?') + count_char(b, '?') + count_char(c, '?')
            + count_char(d, '?') + count_char(e, '?'),
{
    lemma_count4(a, b, c, d);
    lemma_count_char_concat(a + b + c + d, e, '?');
}

proof fn lemma_findings_where(f: FindingFilters)
    ensures
        count_char(findings_where(f), '?') == findings_bindings(f).len(),
{
    lemma_ecosystem_eq();
    lemma_status_eq();
    lemma_severity_ge();
    lemma_score_ge();
    lemma_first_seen_ge();
    lemma_clause(f.ecosystem is Some, " AND ecosystem = ?"@, 1);
    lemma_clause(f.status is Some, " AND status = ?"@, 1);
    lemma_clause(f.min_severity is Some, " AND severity >= ?"@, 1);
    lemma_clause(f.min_score is Some, " AND score >= ?"@, 1);
    lemma_clause(f.since is Some, " AND first_seen >= ?"@, 1);
    lemma_count5(
        clause_if(f.ecosystem is Some, " AND ecosystem = ?"@),
        clause_if(f.status is Some, " AND status = ?"@),
        clause_if(f.min_severity is Some, " AND severity >= ?"@),
        clause_if(f.min_score is Some, " AND score >= ?"@),
        clause_if(f.since is Some, " AND first_seen >= ?"@),
    );
}

proof fn lemma_reports_where(f: QueryFilters)
    ensures
        count_char(reports_where(f), '?') == reports_bindings(f).len(),
{
    lemma_severity_ge();
    lemma_severity_le();
    lemma_recommendation_eq();
    lemma_malicious_eq();
    lemma_name_like();
    lemma_clause(f.min_severity is Some, " AND severity >= ?"@, 1);
    lemma_clause(f.max_severity is Some, " AND severity <= ?"@, 1);
    lemma_clause(f.recommendation is Some, " AND recommendation = ?"@, 1);
    lemma_clause(f.is_malicious is Some, " AND is_malicious = ?"@, 1);
    lemma_clause(f.package_name is Some, " AND package_name LIKE ?"@, 1);
    lemma_count5(
        clause_if(f.min_severity is Some, " AND severity >= ?"@),
        clause_if(f.max_severity is Some, " AND severity <= ?"@),
        clause_if(f.recommendation is Some, " AND recommendation = ?"@),
        clause_if(f.is_malicious is Some, " AND is_malicious = ?"@),
        clause_if(f.package_name is Some, " AND package_name LIKE ?"@),
    );
}

proof fn lemma_quarantine_where(f: QuarantineFilters)
    ensures
        count_char(quarantine_where(f), '?') == quarantine_bindings(f).len(),
{
    lemma_ecosystem_eq();
    lemma_name_like();
    lemma_severity_ge();
    lemma_quarantined_ge();
    lemma_clause(f.ecosystem is Some, " AND ecosystem = ?"@, 1);
    lemma_clause(f.package_name is Some, " AND package_name LIKE ?"@, 1);
    lemma_clause(f.min_severity is Some, " AND severity >= ?"@, 1);
    lemma_clause(f.since is Some, " AND quarantined_at >= ?"@, 1);
    lemma_count4(
        clause_if(f.ecosystem is Some, " AND ecosystem = ?"@),
        clause_if(f.package_name is Some, " AND package_name LIKE ?"@),
        clause_if(f.min_severity is Some, " AND severity >= ?"@),
        clause_if(f.since is Some, " AND quarantined_at >= ?"@),
    );
}

proof fn lemma_audit_where(f: AuditFilters)
    ensures
        count_char(audit_where(f), '?') == audit_bindings(f).len(),
{
    lemma_action_eq();
    lemma_entity_type_eq();
    lemma_entity_id_eq();
    lemma_timestamp_ge();
    lemma_clause(f.action is Some, " AND action = ?"@, 1);
    lemma_clause(f.entity_type is Some, " AND entity_type = ?"@, 1);
    lemma_clause(f.entity_id is Some, " AND entity_id = ?"@, 1);
    lemma_clause(f.since is Some, " AND timestamp >= ?"@, 1);
    lemma_count4(
        clause_if(f.action is Some, " AND action = ?"@),
        clause_if(f.entity_type is Some, " AND entity_type = ?"@),
        clause_if(f.entity_id is Some, " AND entity_id = ?"@),
        clause_if(f.since is Some, " AND timestamp >= ?"@),
    );
}

/// The findings listing binds exactly one value per placeholder.
pub proof fn law_findings_query_binds_every_placeholder(f: FindingFilters)
    ensures
        count_char(
            FINDINGS_SELECT@ + findings_where(f) + " ORDER BY last_updated DESC"@ + page_clause(
                f.limit,
                f.offset,
            ),
            '?',
        ) == findings_bindings(f).len(),
{
    lemma_findings_select();
    lemma_by_updated();
    lemma_page(f.limit, f.offset);
    lemma_findings_where(f);
    lemma_count4(
        FINDINGS_SELECT@,
        findings_where(f),
        " ORDER BY last_updated DESC"@,
        page_clause(f.limit, f.offset),
    );
}

/// The report listing and the report count bind exactly one value per
/// placeholder.
pub proof fn law_reports_queries_bind_every_placeholder(f: QueryFilters)
    ensures
        count_char(
            "SELECT report_json FROM analysis_reports WHERE 1=1"@ + reports_where(f)
                + " ORDER BY timestamp DESC"@ + page_clause(f.limit, f.offset),
            '?',
        ) == reports_bindings(f).len(),
        count_char("SELECT COUNT(*) as count FROM analysis_reports WHERE 1=1"@ + reports_where(f), '?')
            == reports_bindings(f).len(),
{
    lemma_reports_select();
    lemma_reports_count();
    lemma_by_timestamp();
    lemma_page(f.limit, f.offset);
    lemma_reports_where(f);
    lemma_count4(
        "SELECT report_json FROM analysis_reports WHERE 1=1"@,
        reports_where(f),
        " ORDER BY timestamp DESC"@,
        page_clause(f.limit, f.offset),
    );
    lemma_count_char_concat(
        "SELECT COUNT(*) as count FROM analysis_reports WHERE 1=1"@,
        reports_where(f),
        '?',
    );
}

/// The quarantine listing and count bind exactly one value per placeholder.
pub proof fn law_quarantine_queries_bind_every_placeholder(f: QuarantineFilters)
    ensures
        count_char(
            QUARANTINE_SELECT@ + quarantine_where(f) + " ORDER BY quarantined_at DESC"@ + page_clause(
                f.limit,
                f.offset,
            ),
            '?',
        ) == quarantine_bindings(f).len(),
        count_char(
            "SELECT COUNT(*) as count FROM quarantined_packages WHERE 1=1"@ + quarantine_where(f),
            '?',
        ) == quarantine_bindings(f).len(),
{
    lemma_quarantine_select();
    lemma_quarantine_count();
    lemma_by_quarantined();
    lemma_page(f.limit, f.offset);
    lemma_quarantine_where(f);
    lemma_count4(
        QUARANTINE_SELECT@,
        quarantine_where(f),
        " ORDER BY quarantined_at DESC"@,
        page_clause(f.limit, f.offset),
    );
    lemma_count_char_concat(
        "SELECT COUNT(*) as count FROM quarantined_packages WHERE 1=1"@,
        quarantine_where(f),
        '?',
    );
}

/// The audit listing and count bind exactly one value per placeholder.
pub proof fn law_audit_queries_bind_every_placeholder(f: AuditFilters)
    ensures
        count_char(
            "SELECT id, timestamp, action, entity_type, entity_id, old_value, new_value, details, actor FROM audit_log WHERE 1=1"@
                + audit_where(f) + " ORDER BY timestamp DESC"@ + audit_page(f.limit, f.offset),
            '?',
        ) == audit_bindings(f).len(),
        count_char("SELECT COUNT(*) as count FROM audit_log WHERE 1=1"@ + audit_where(f), '?')
            == audit_bindings(f).len(),
{
    lemma_audit_select();
    lemma_audit_count();
    lemma_by_timestamp();
    lemma_limit();
    lemma_limit_default();
    lemma_offset();
    lemma_audit_where(f);
    let a = match f.limit {
        Some(l) => " LIMIT "@ + signed_decimal(if l < 200 {
            l as int
        } else {
            200
        }),
        None => " LIMIT 50"@,
    };
    let b = match f.offset {
        Some(o) => " OFFSET "@ + signed_decimal(o as int),
        None => Seq::<char>::empty(),
    };
    if let Some(l) = f.limit {
        lemma_number(" LIMIT "@, if l < 200 {
            l as int
        } else {
            200
        });
    }
    if let Some(o) = f.offset {
        lemma_number(" OFFSET "@, o as int);
    }
    lemma_count_char_concat(a, b, '?');
    lemma_count4(
        "SELECT id, timestamp, action, entity_type, entity_id, old_value, new_value, details, actor FROM audit_log WHERE 1=1"@,
        audit_where(f),
        " ORDER BY timestamp DESC"@,
        audit_page(f.limit, f.offset),
    );
    lemma_count_char_concat("SELECT COUNT(*) as count FROM audit_log WHERE 1=1"@, audit_where(f), '?');
}

} // verus!
