//! The health endpoints' decisions. The probe against the datastore is a
//! round trip the caller performs; given its outcome, these functions decide
//! the status code and the body. Liveness never depends on the probe.

use vstd::prelude::*;
use vstd::string::StringExecFns;

verus! {

/// The datastore part of the health report: its status and the probe's round
/// trip latency (zero when the probe failed).
#[derive(Debug, Clone)]
pub struct DatabaseHealth {
    pub status: String,
    pub latency_ms: u64,
}

/// The composite health report. Uptime is part of the wire shape but not
/// tracked: it is always zero.
#[derive(Debug, Clone)]
pub struct HealthResponse {
    pub status: String,
    pub database: DatabaseHealth,
    pub uptime_seconds: u64,
}

/// Decide the composite health report from the probe's outcome: a reachable
/// datastore reports healthy with the measured latency and status 200, an
/// unreachable one reports degraded with zero latency and status 503.
pub fn health_check(db_ok: bool, latency_ms: u64) -> (r: (u16, HealthResponse))
    ensures
        db_ok ==> r.0 == 200 && r.1.status@ == "healthy"@ && r.1.database.status@ == "healthy"@
            && r.1.database.latency_ms == latency_ms,
        !db_ok ==> r.0 == 503 && r.1.status@ == "degraded"@ && r.1.database.status@
            == "unhealthy"@ && r.1.database.latency_ms == 0,
        r.1.uptime_seconds == 0,
{
    if db_ok {
        (
            200,
            HealthResponse {
                status: String::from_str("healthy"),
                database: DatabaseHealth { status: String::from_str("healthy"), latency_ms },
                uptime_seconds: 0,
            },
        )
    } else {
        (
            503,
            HealthResponse {
                status: String::from_str("degraded"),
                database: DatabaseHealth { status: String::from_str("unhealthy"), latency_ms: 0 },
                uptime_seconds: 0,
            },
        )
    }
}

/// Decide readiness from the probe's outcome: 200 when the datastore is
/// reachable, 503 when it is not.
pub fn readiness(db_ok: bool) -> (r: u16)
    ensures
        r == 200 <==> db_ok,
        r == if db_ok { 200 as u16 } else { 503 as u16 },
{
    if db_ok {
        200
    } else {
        503
    }
}

/// Liveness: always 200, with no dependency checked.
pub fn liveness() -> (r: u16)
    ensures
        r == 200,
{
    200
}

} // verus!
