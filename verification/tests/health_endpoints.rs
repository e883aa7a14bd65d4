use pulsemetrics_backend::health::{health_check, liveness, readiness};

#[test]
fn test_health_check_reachable_datastore() {
    let (status, body) = health_check(true, 7);
    assert_eq!(status, 200);
    assert_eq!(body.status, "healthy");
    assert_eq!(body.database.status, "healthy");
    assert_eq!(body.database.latency_ms, 7);
    assert_eq!(body.uptime_seconds, 0);
}

#[test]
fn test_health_check_unreachable_datastore() {
    let (status, body) = health_check(false, 7);
    assert_eq!(status, 503);
    assert_eq!(body.status, "degraded");
    assert_eq!(body.database.status, "unhealthy");
    assert_eq!(body.database.latency_ms, 0);
}

#[test]
fn test_readiness_reflects_datastore() {
    assert_eq!(readiness(true), 200);
    assert_eq!(readiness(false), 503);
}

#[test]
fn test_liveness_unaffected_by_datastore() {
    // Liveness checks no dependency: it is 200 whatever the probe would say.
    assert_eq!(readiness(false), 503);
    assert_eq!(liveness(), 200);
}
