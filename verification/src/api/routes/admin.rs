//! Admin route bodies.

use vstd::prelude::*;
use crate::admin::types::DiagnosticReport;

verus! {

/// The health check response body.
#[derive(Debug, Clone)]
pub struct HealthResponse {
    pub status: String,
    pub uptime_secs: u64,
    pub components: Vec<ComponentHealthResponse>,
}

/// One component's health in the health check response body.
#[derive(Debug, Clone)]
pub struct ComponentHealthResponse {
    pub name: String,
    pub status: String,
    pub latency_ms: Option<u64>,
}

/// The diagnostics response body.
#[derive(Debug, Clone)]
pub struct DiagnosticsResponse {
    pub generated_at: String,
    pub active_sessions: u64,
    pub running_apps: u64,
    pub db_size_bytes: u64,
}

/// The diagnostics response body of a diagnostic report.
pub fn diagnostics_response(report: DiagnosticReport) -> (r: DiagnosticsResponse)
    ensures
        r.generated_at == report.generated_at,
        r.active_sessions == report.active_sessions,
        r.running_apps == report.running_apps,
        r.db_size_bytes == report.db_size_bytes,
{
    DiagnosticsResponse {
        generated_at: report.generated_at,
        active_sessions: report.active_sessions,
        running_apps: report.running_apps,
        db_size_bytes: report.db_size_bytes,
    }
}

} // verus!
