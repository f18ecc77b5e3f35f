//! Audit-log endpoint bodies.
use vstd::prelude::*;
use crate::db::audit::{AuditEntry, AuditFilters};

verus! {

/// Query parameters of the audit-log listing.
#[derive(Debug, Clone)]
pub struct AuditQuery {
    pub action: Option<String>,
    pub entity_type: Option<String>,
    pub entity_id: Option<i64>,
    pub since: Option<String>,
    pub limit: Option<i64>,
    pub offset: Option<i64>,
}

impl From<AuditQuery> for AuditFilters {
    fn from(q: AuditQuery) -> (r: AuditFilters) {
        AuditFilters {
            action: q.action,
            entity_type: q.entity_type,
            entity_id: q.entity_id,
            since: q.since,
            limit: q.limit,
            offset: q.offset,
        }
    }
}

impl vstd::std_specs::convert::FromSpecImpl<AuditQuery> for AuditFilters {
    open spec fn obeys_from_spec() -> bool {
        true
    }

    open spec fn from_spec(q: AuditQuery) -> AuditFilters {
        AuditFilters {
            action: q.action,
            entity_type: q.entity_type,
            entity_id: q.entity_id,
            since: q.since,
            limit: q.limit,
            offset: q.offset,
        }
    }
}

/// A page of audit entries and the number of entries in all.
#[derive(Debug)]
pub struct AuditListResponse {
    pub entries: Vec<AuditEntry>,
    pub total: i64,
}

} // verus!
