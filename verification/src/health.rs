//! The health endpoint's body and its decision: the service is healthy
//! with a reachable database and degraded without one.

use vstd::prelude::*;

verus! {

/// The body of a health response.
#[derive(Clone, Debug)]
pub struct HealthResponse {
    pub status: String,
    pub database: bool,
    pub version: String,
    pub uptime: Option<u64>,
}

/// Build the health response for one probe: 200 `healthy` when the
/// database answered, 503 `degraded` when it did not.
pub fn health_check(db_ok: bool, version: String, uptime: Option<u64>) -> (r: (
    u16,
    HealthResponse,
))
    ensures
        db_ok ==> r.0 == 200 && r.1.status@ == "healthy"@,
        !db_ok ==> r.0 == 503 && r.1.status@ == "degraded"@,
        r.1.database == db_ok,
        r.1.version == version,
        r.1.uptime == uptime,
{
    let status: &str = if db_ok {
        "healthy"
    } else {
        "degraded"
    };
    let code: u16 = if db_ok {
        200
    } else {
        503
    };
    (code, HealthResponse { status: status.to_owned(), database: db_ok, version, uptime })
}

} // verus!
