//! Health-check endpoint body.
use vstd::prelude::*;

verus! {

/// The health of the service and of its database.
#[derive(Debug)]
pub struct HealthResponse {
    pub status: String,
    pub db: String,
}

/// The answer to a health check: 200 with `ok`/`ok` when the database
/// answered, 503 with `error`/`unavailable` when it did not.
pub fn health_response(db_ok: bool) -> (r: (u16, HealthResponse))
    ensures
        db_ok ==> r.0 == 200 && r.1.status@ == "ok"@ && r.1.db@ == "ok"@,
        !db_ok ==> r.0 == 503 && r.1.status@ == "error"@ && r.1.db@ == "unavailable"@,
{
    if db_ok {
        (200, HealthResponse { status: "ok".to_owned(), db: "ok".to_owned() })
    } else {
        (503, HealthResponse { status: "error".to_owned(), db: "unavailable".to_owned() })
    }
}

} // verus!
