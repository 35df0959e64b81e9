//! Admin domain types.

use vstd::prelude::*;
use crate::admin::health::{ComponentHealth, HealthStatus};
use crate::base::ids::Timestamp;

verus! {

/// Filesystem paths are carried through as opaque values.
#[verifier::external_type_specification]
#[verifier::external_body]
pub struct ExPathBuf(std::path::PathBuf);

/// Cloning a path gives an equal path (`PathBuf`'s `Clone` copies its
/// contents).
pub assume_specification[ <std::path::PathBuf as Clone>::clone ](p: &std::path::PathBuf) -> (r: std::path::PathBuf)
    ensures
        r == *p,
;

/// The path made from the text `s`.
pub uninterp spec fn path_of(s: Seq<char>) -> std::path::PathBuf;

/// Calls `std::path::PathBuf::from` on a string; the result is named
/// `path_of` of the text.
#[verifier::external_body]
pub(crate) fn path_from(s: &str) -> (r: std::path::PathBuf)
    ensures
        r == path_of(s@),
{
    std::path::PathBuf::from(s)
}

/// Overall system health summary.
#[derive(Debug, Clone)]
pub struct SystemHealth {
    /// Aggregated system health status.
    pub status: HealthStatus,
    /// Per-component health details.
    pub components: Vec<ComponentHealth>,
    /// System uptime in seconds.
    pub uptime_secs: u64,
}

/// A diagnostic report capturing the full system state.
#[derive(Debug, Clone)]
pub struct DiagnosticReport {
    /// ISO 8601 timestamp when the report was generated.
    pub generated_at: Timestamp,
    /// System health at the time of the report.
    pub health: SystemHealth,
    /// Number of active user sessions.
    pub active_sessions: u64,
    /// Number of running app instances.
    pub running_apps: u64,
    /// Database size in bytes.
    pub db_size_bytes: u64,
}

/// A single timestamped metric sample. The CPU usage is held as the bit
/// pattern of its `f32` value (`f32::to_bits`), so the library carries it
/// without computing on it.
#[derive(Debug, Clone)]
pub struct MetricSample {
    /// ISO 8601 timestamp.
    pub timestamp: Timestamp,
    /// Bit pattern of the CPU usage percentage (0.0 – 100.0).
    pub cpu_percent_bits: u32,
    /// Bytes of RAM currently in use.
    pub memory_used_bytes: u64,
    /// Total physical RAM in bytes.
    pub memory_total_bytes: u64,
    /// Bytes of swap currently in use.
    pub swap_used_bytes: u64,
    /// Total swap space in bytes.
    pub swap_total_bytes: u64,
    /// Number of running app instances.
    pub running_app_count: u32,
    /// Errors observed since last sample.
    pub error_count: u32,
}

/// A disk-usage sample for a single mount point.
#[derive(Debug, Clone)]
pub struct DiskMetricSample {
    /// ISO 8601 timestamp.
    pub timestamp: Timestamp,
    /// Mount point path (e.g. `/`).
    pub mount_point: String,
    /// Bytes used on the filesystem.
    pub used_bytes: u64,
    /// Total bytes on the filesystem.
    pub total_bytes: u64,
}

/// Runtime state of an app instance.
#[derive(Debug, Clone, Copy, PartialEq, Eq, Structural)]
pub enum AppRuntimeState {
    Running,
    Suspended,
}

/// Information about a currently running app. The CPU usage is held as the
/// bit pattern of its `f32` value.
#[derive(Debug, Clone)]
pub struct AppRunningInfo {
    /// Application identifier (e.g. `com.cortexos.settings`).
    pub app_id: String,
    /// Human-readable application name.
    pub app_name: String,
    /// Process identifier.
    pub pid: u32,
    /// Bit pattern of the CPU usage percentage.
    pub cpu_percent_bits: u32,
    /// Memory used by the process in bytes.
    pub memory_used_bytes: u64,
    /// Runtime state.
    pub state: AppRuntimeState,
    /// ISO 8601 timestamp when the app started.
    pub started_at: Timestamp,
}

/// A record of an app crash event.
#[derive(Debug, Clone)]
pub struct CrashRecord {
    /// Unique identifier for this crash record (the value of a UUID).
    pub id: u128,
    /// Application identifier.
    pub app_id: String,
    /// Human-readable application name.
    pub app_name: String,
    /// Exit code returned by the process.
    pub exit_code: i32,
    /// Signal that terminated the process, if any.
    pub signal: Option<i32>,
    /// ISO 8601 timestamp of the crash.
    pub crash_time: Timestamp,
    /// Path to the crash log file.
    pub crash_log_path: std::path::PathBuf,
    /// Number of automatic restart attempts so far this session.
    pub auto_restart_attempts: u32,
}

/// Information about a single app within a persisted session.
#[derive(Debug, Clone)]
pub struct SessionApp {
    /// Application identifier.
    pub app_id: String,
    /// Window X position.
    pub window_x: i32,
    /// Window Y position.
    pub window_y: i32,
    /// Window width in pixels.
    pub window_width: u32,
    /// Window height in pixels.
    pub window_height: u32,
    /// Whether this app's window was focused.
    pub was_focused: bool,
}

/// Snapshot of session state for recovery after an unclean shutdown.
#[derive(Debug, Clone)]
pub struct SessionState {
    /// Schema version for future compatibility.
    pub version: u32,
    /// Whether the previous shutdown was clean.
    pub clean_shutdown: bool,
    /// ISO 8601 timestamp when the state was saved.
    pub saved_at: Timestamp,
    /// List of running apps at save time.
    pub apps: Vec<SessionApp>,
}

/// Status of a single filesystem check item.
#[derive(Debug, Clone, Copy, PartialEq, Eq, Structural)]
pub enum FsCheckStatus {
    Pass,
    Warning,
    Error,
}

/// A single filesystem check result.
#[derive(Debug, Clone)]
pub struct FsCheckItem {
    /// Name of the check performed.
    pub check_name: String,
    /// Path that was checked.
    pub path: String,
    /// Check result status.
    pub status: FsCheckStatus,
    /// Human-readable message about the result.
    pub message: String,
    /// Whether this issue can be automatically repaired.
    pub repairable: bool,
}

/// Aggregate result of a filesystem verification pass.
#[derive(Debug, Clone)]
pub struct FsCheckResult {
    /// Individual check results.
    pub items: Vec<FsCheckItem>,
    /// Total number of checks performed.
    pub total_checked: u32,
    /// Number of checks that passed.
    pub passed: u32,
    /// Number of warnings.
    pub warnings: u32,
    /// Number of errors.
    pub errors: u32,
}

/// How many items have status `st`.
pub open spec fn count_status(items: Seq<FsCheckItem>, st: FsCheckStatus) -> nat
    decreases items.len(),
{
    if items.len() == 0 {
        0
    } else {
        count_status(items.drop_last(), st) + if items.last().status == st { 1nat } else { 0nat }
    }
}

/// Every item has exactly one of the three statuses.
pub proof fn lemma_status_counts_sum(items: Seq<FsCheckItem>)
    ensures
        count_status(items, FsCheckStatus::Pass) + count_status(items, FsCheckStatus::Warning)
            + count_status(items, FsCheckStatus::Error) == items.len(),
    decreases items.len(),
{
    if items.len() > 0 {
        lemma_status_counts_sum(items.drop_last());
    }
}

pub proof fn lemma_count_bounded(items: Seq<FsCheckItem>, st: FsCheckStatus)
    ensures
        count_status(items, st) <= items.len(),
    decreases items.len(),
{
    if items.len() > 0 {
        lemma_count_bounded(items.drop_last(), st);
    }
}

impl FsCheckResult {
    /// Create a result from a list of check items, computing the aggregates.
    /// Each count is the number of items, narrowed to 32 bits.
    pub fn from_items(items: Vec<FsCheckItem>) -> (r: Self)
        ensures
            r.items@ == items@,
            r.total_checked == items@.len() as u32,
            r.passed == count_status(items@, FsCheckStatus::Pass) as u32,
            r.warnings == count_status(items@, FsCheckStatus::Warning) as u32,
            r.errors == count_status(items@, FsCheckStatus::Error) as u32,
    {
        let mut passed: usize = 0;
        let mut warnings: usize = 0;
        let mut errors: usize = 0;
        let mut i: usize = 0;
        while i < items.len()
            invariant
                i <= items@.len(),
                passed == count_status(items@.take(i as int), FsCheckStatus::Pass),
                warnings == count_status(items@.take(i as int), FsCheckStatus::Warning),
                errors == count_status(items@.take(i as int), FsCheckStatus::Error),
            decreases items.len() - i,
        {
            proof {
                assert(items@.take(i + 1).drop_last() =~= items@.take(i as int));
                lemma_count_bounded(items@.take(i as int), FsCheckStatus::Pass);
                lemma_count_bounded(items@.take(i as int), FsCheckStatus::Warning);
                lemma_count_bounded(items@.take(i as int), FsCheckStatus::Error);
            }
            match items[i].status {
                FsCheckStatus::Pass => passed = passed + 1,
                FsCheckStatus::Warning => warnings = warnings + 1,
                FsCheckStatus::Error => errors = errors + 1,
            }
            i = i + 1;
        }
        assert(items@.take(items@.len() as int) =~= items@);
        let total_checked = items.len() as u32;
        FsCheckResult {
            items,
            total_checked,
            passed: passed as u32,
            warnings: warnings as u32,
            errors: errors as u32,
        }
    }
}

/// Component included in a diagnostic export.
#[derive(Debug, Clone, PartialEq, Eq, Structural)]
pub enum DiagnosticComponent {
    SystemLogs { hours: u32 },
    RunningApps,
    PermissionGrants,
    AiUsageSummary,
    CrashLogs,
    SystemSettings,
}

/// System information included in a diagnostic bundle.
#[derive(Debug, Clone)]
pub struct SystemInfo {
    /// CortexOS version string.
    pub os_version: String,
    /// Kernel version string.
    pub kernel_version: String,
    /// Machine hostname.
    pub hostname: String,
    /// CPU architecture (e.g. `x86_64`).
    pub architecture: String,
    /// Number of logical CPU cores.
    pub cpu_count: u32,
    /// Total physical memory in bytes.
    pub total_memory_bytes: u64,
    /// System uptime in seconds.
    pub uptime_seconds: u64,
}

/// A diagnostic export bundle.
#[derive(Debug, Clone)]
pub struct DiagnosticBundle {
    /// ISO 8601 timestamp when the bundle was created.
    pub exported_at: Timestamp,
    /// System information at export time.
    pub system_info: SystemInfo,
    /// Components included in the bundle.
    pub included_components: Vec<DiagnosticComponent>,
    /// Total size of the bundle in bytes.
    pub total_size_bytes: u64,
}

/// Options controlling what to include in a diagnostic export.
#[derive(Debug, Clone)]
pub struct ExportOptions {
    /// Include system logs.
    pub include_logs: bool,
    /// Hours of log history to include (default 24).
    pub log_hours: u32,
    /// Include system info.
    pub include_system_info: bool,
    /// Include running app list.
    pub include_running_apps: bool,
    /// Include permission grants.
    pub include_permissions: bool,
    /// Include AI usage summary.
    pub include_ai_usage: bool,
    /// Include crash logs.
    pub include_crash_logs: bool,
    /// Include system settings (redacted).
    pub include_settings: bool,
    /// Output path for the ZIP file.
    pub output_path: std::path::PathBuf,
}

impl Default for ExportOptions {
    fn default() -> (r: Self)
        ensures
            r.include_logs && r.include_system_info && r.include_running_apps && r.include_permissions
                && r.include_ai_usage && r.include_crash_logs && r.include_settings,
            r.log_hours == 24,
            r.output_path == path_of("cortexos-diagnostics.zip"@),
    {
        ExportOptions {
            include_logs: true,
            log_hours: 24,
            include_system_info: true,
            include_running_apps: true,
            include_permissions: true,
            include_ai_usage: true,
            include_crash_logs: true,
            include_settings: true,
            output_path: path_from("cortexos-diagnostics.zip"),
        }
    }
}

/// Error counts broken down by severity for a time window.
#[derive(Debug, Clone)]
pub struct ErrorCountBySeverity {
    /// Number of errors.
    pub errors: u32,
    /// Number of warnings.
    pub warnings: u32,
}

impl Default for ErrorCountBySeverity {
    fn default() -> (r: Self)
        ensures
            r.errors == 0 && r.warnings == 0,
    {
        ErrorCountBySeverity { errors: 0, warnings: 0 }
    }
}

/// Error counts for multiple time windows.
#[derive(Debug, Clone)]
pub struct ErrorCounts {
    /// Errors in the last hour.
    pub last_hour: ErrorCountBySeverity,
    /// Errors in the last 6 hours.
    pub last_6_hours: ErrorCountBySeverity,
    /// Errors in the last 24 hours.
    pub last_24_hours: ErrorCountBySeverity,
    /// Errors in the last 7 days.
    pub last_7_days: ErrorCountBySeverity,
}

impl Default for ErrorCounts {
    fn default() -> (r: Self)
        ensures
            r.last_hour.errors == 0 && r.last_hour.warnings == 0,
            r.last_6_hours.errors == 0 && r.last_6_hours.warnings == 0,
            r.last_24_hours.errors == 0 && r.last_24_hours.warnings == 0,
            r.last_7_days.errors == 0 && r.last_7_days.warnings == 0,
    {
        ErrorCounts {
            last_hour: ErrorCountBySeverity::default(),
            last_6_hours: ErrorCountBySeverity::default(),
            last_24_hours: ErrorCountBySeverity::default(),
            last_7_days: ErrorCountBySeverity::default(),
        }
    }
}

} // verus!
