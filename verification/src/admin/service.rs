//! Admin service data and the decisions of its operations: the health
//! report, the diagnostic report, backup and restore checks, and the shape
//! of a user-data export.

use vstd::prelude::*;
use crate::admin::error::AdminError;
use crate::admin::health::{overall_kind, overall_status, ComponentHealth, HealthStatus};
use crate::admin::types::{DiagnosticReport, SystemHealth};
use crate::base::ids::Timestamp;
use crate::base::time::{is_instant_text, now_rfc3339};
use crate::db::error::DbError;

verus! {

/// Summary information about an active session.
#[derive(Debug, Clone)]
pub struct SessionInfo {
    pub session_id: String,
    pub user_id: String,
    pub created_at: Timestamp,
    pub last_active_at: Timestamp,
    pub ip_address: Option<String>,
}

/// The system health report, given the outcome of probing the database and
/// the uptime: one `database` component, healthy when the probe succeeded
/// and otherwise unhealthy with the message of the admin error the probe's
/// failure is reported as (`internal error`); and the overall status.
pub fn system_health(db_probe: &Result<(), DbError>, uptime_secs: u64) -> (r: SystemHealth)
    ensures
        r.components@.len() == 1,
        r.components@[0].name@ == "database"@,
        r.components@[0].latency_ms is None,
        db_probe is Ok ==> r.components@[0].status is Healthy,
        db_probe is Err ==> (r.components@[0].status matches HealthStatus::Unhealthy(m) && m@
            == AdminError::Internal.message_of()),
        overall_kind(r.components@) is Healthy ==> r.status is Healthy,
        overall_kind(r.components@) is Unhealthy ==> (r.status matches HealthStatus::Unhealthy(m)
            && m@ == "one or more components unhealthy"@),
        db_probe is Ok ==> r.status is Healthy,
        db_probe is Err ==> r.status is Unhealthy,
        r.uptime_secs == uptime_secs,
{
    let status = match db_probe {
        Ok(()) => HealthStatus::Healthy,
        Err(_) => HealthStatus::Unhealthy(AdminError::Internal.to_message()),
    };
    let mut components: Vec<ComponentHealth> = Vec::new();
    components.push(ComponentHealth { name: String::from_str("database"), status, latency_ms: None });
    let overall = overall_status(&components);
    proof {
        if db_probe is Err {
            assert(!(components@[0].status is Healthy));
            assert(components@[0].status is Unhealthy);
        }
    }
    SystemHealth { status: overall, components, uptime_secs }
}

/// The diagnostic report, stamped with the current time: the health report,
/// the counts of active sessions and running apps (each count taken as an
/// unsigned 64-bit value), and no database size.
pub fn diagnostic_report(health: SystemHealth, active_sessions: i64, running_apps: i64) -> (r: DiagnosticReport)
    ensures
        r.health == health,
        r.active_sessions == active_sessions as u64,
        r.running_apps == running_apps as u64,
        r.db_size_bytes == 0,
        is_instant_text(r.generated_at@),
{
    DiagnosticReport {
        generated_at: now_rfc3339(),
        health,
        active_sessions: active_sessions as u64,
        running_apps: running_apps as u64,
        db_size_bytes: 0,
    }
}

/// The statement that writes a backup of the database to `path`.
pub open spec fn backup_statement_text(path: Seq<char>) -> Seq<char> {
    "VACUUM INTO '"@ + path + "';"@
}

/// The statement that writes a backup of the database to `path`.
pub fn backup_statement(path: &str) -> (r: String)
    ensures
        r@ == backup_statement_text(path@),
{
    let mut s = String::from_str("VACUUM INTO '");
    s.append(path);
    s.append("';");
    s
}

/// The error a failed backup is reported with, given the database's
/// message: `BackupFailed` carrying the message of the query error
/// `VACUUM INTO failed: <message>`.
pub fn backup_failure(db_message: &str) -> (r: AdminError)
    ensures
        r matches AdminError::BackupFailed(m) && m@ == "query error: "@ + ("VACUUM INTO failed: "@
            + db_message@),
{
    let e = DbError::Query(String::from_str("VACUUM INTO failed: ").concat(db_message));
    AdminError::BackupFailed(e.to_message())
}

/// What reading a backup file gave: its size in bytes, or the read error's
/// message.
pub type BackupRead = Result<u64, String>;

/// The outcome of checking a backup file before a restore: it must exist
/// and be readable and non-empty.
pub fn check_backup_file(path: &str, exists: bool, read: &Option<BackupRead>) -> (r: Result<(), AdminError>)
    requires
        exists ==> read is Some,
    ensures
        !exists ==> (r matches Err(AdminError::RestoreFailed(m)) && m@ == "backup file not found: "@ + path@),
        exists ==> match read {
            Some(Ok(n)) => if *n == 0 {
                r matches Err(AdminError::RestoreFailed(m)) && m@ == "backup file is empty"@
            } else {
                r is Ok
            },
            Some(Err(e)) => r matches Err(AdminError::RestoreFailed(m)) && m@
                == "cannot read backup file: "@ + e@,
            None => false,
        },
{
    if !exists {
        return Err(AdminError::RestoreFailed(String::from_str("backup file not found: ").concat(path)));
    }
    match read {
        Some(Ok(n)) => if *n == 0 {
            Err(AdminError::RestoreFailed(String::from_str("backup file is empty")))
        } else {
            Ok(())
        },
        Some(Err(e)) => Err(
            AdminError::RestoreFailed(String::from_str("cannot read backup file: ").concat(e.as_str())),
        ),
        None => Ok(()),
    }
}

/// An exported user row.
#[derive(Debug, Clone)]
pub struct ExportedUser {
    pub user_id: String,
    pub username: String,
    pub display_name: String,
    pub created_at: String,
    pub updated_at: String,
}

/// An exported session row.
#[derive(Debug, Clone)]
pub struct ExportedSession {
    pub session_id: String,
    pub user_id: String,
    pub created_at: String,
    pub last_active_at: String,
    pub expires_at: String,
}

/// An exported file row.
#[derive(Debug, Clone)]
pub struct ExportedFile {
    pub file_id: String,
    pub parent_id: Option<String>,
    pub name: String,
    pub is_directory: bool,
    pub size_bytes: i64,
    pub mime_type: String,
    pub owner_id: String,
    pub created_at: String,
    pub updated_at: String,
}

/// An exported notification row.
#[derive(Debug, Clone)]
pub struct ExportedNotification {
    pub notification_id: String,
    pub user_id: String,
    pub title: String,
    pub body: String,
    pub category: String,
    pub is_read: bool,
    pub created_at: String,
}

/// An exported setting row.
#[derive(Debug, Clone)]
pub struct ExportedSetting {
    pub namespace: String,
    pub key: String,
    pub value: String,
    pub updated_at: String,
}

/// Everything exported for a user: the user's own rows, sessions, files and
/// notifications, and all settings (which are not user-scoped).
#[derive(Debug, Clone)]
pub struct ExportedUserData {
    pub user_id: String,
    pub users: Vec<ExportedUser>,
    pub sessions: Vec<ExportedSession>,
    pub files: Vec<ExportedFile>,
    pub notifications: Vec<ExportedNotification>,
    pub settings: Vec<ExportedSetting>,
}

impl ExportedFile {
    /// A file row as exported; the directory flag is stored as an integer
    /// and is set when non-zero.
    pub fn from_row(
        file_id: String,
        parent_id: Option<String>,
        name: String,
        is_directory: i64,
        size_bytes: i64,
        mime_type: String,
        owner_id: String,
        created_at: String,
        updated_at: String,
    ) -> (r: Self)
        ensures
            r.file_id == file_id,
            r.parent_id == parent_id,
            r.name == name,
            r.is_directory == (is_directory != 0),
            r.size_bytes == size_bytes,
            r.mime_type == mime_type,
            r.owner_id == owner_id,
            r.created_at == created_at,
            r.updated_at == updated_at,
    {
        ExportedFile {
            file_id,
            parent_id,
            name,
            is_directory: is_directory != 0,
            size_bytes,
            mime_type,
            owner_id,
            created_at,
            updated_at,
        }
    }
}

impl ExportedNotification {
    /// A notification row as exported; the read flag is stored as an
    /// integer and is set when non-zero.
    pub fn from_row(
        notification_id: String,
        user_id: String,
        title: String,
        body: String,
        category: String,
        is_read: i64,
        created_at: String,
    ) -> (r: Self)
        ensures
            r.notification_id == notification_id,
            r.user_id == user_id,
            r.title == title,
            r.body == body,
            r.category == category,
            r.is_read == (is_read != 0),
            r.created_at == created_at,
    {
        ExportedNotification { notification_id, user_id, title, body, category, is_read: is_read != 0, created_at }
    }
}

} // verus!
