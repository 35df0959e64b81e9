//! Admin error types.

use vstd::prelude::*;

verus! {

/// Errors that can occur during admin operations.
#[derive(Debug)]
pub enum AdminError {
    /// A requested resource was not found.
    NotFound(String),
    /// A backup operation failed.
    BackupFailed(String),
    /// A restore operation failed.
    RestoreFailed(String),
    /// A metrics collection operation failed.
    MetricsError(String),
    /// A session recovery operation failed.
    SessionError(String),
    /// A crash handling operation failed.
    CrashError(String),
    /// A filesystem check or repair operation failed.
    FilesystemError(String),
    /// A diagnostic export operation failed.
    ExportFailed(String),
    /// Factory reset failed.
    FactoryResetFailed(String),
    /// An unexpected internal error.
    Internal,
}

impl AdminError {
    /// The human-readable message of each variant.
    pub open spec fn message_of(&self) -> Seq<char> {
        match self {
            AdminError::NotFound(m) => "not found: "@ + m@,
            AdminError::BackupFailed(m) => "backup failed: "@ + m@,
            AdminError::RestoreFailed(m) => "restore failed: "@ + m@,
            AdminError::MetricsError(m) => "metrics error: "@ + m@,
            AdminError::SessionError(m) => "session error: "@ + m@,
            AdminError::CrashError(m) => "crash handler error: "@ + m@,
            AdminError::FilesystemError(m) => "filesystem error: "@ + m@,
            AdminError::ExportFailed(m) => "export failed: "@ + m@,
            AdminError::FactoryResetFailed(m) => "factory reset failed: "@ + m@,
            AdminError::Internal => "internal error"@,
        }
    }

    /// The human-readable message of the error.
    pub fn to_message(&self) -> (r: String)
        ensures
            r@ == self.message_of(),
    {
        match self {
            AdminError::NotFound(m) => String::from_str("not found: ").concat(m.as_str()),
            AdminError::BackupFailed(m) => String::from_str("backup failed: ").concat(m.as_str()),
            AdminError::RestoreFailed(m) => String::from_str("restore failed: ").concat(m.as_str()),
            AdminError::MetricsError(m) => String::from_str("metrics error: ").concat(m.as_str()),
            AdminError::SessionError(m) => String::from_str("session error: ").concat(m.as_str()),
            AdminError::CrashError(m) => String::from_str("crash handler error: ").concat(m.as_str()),
            AdminError::FilesystemError(m) => String::from_str("filesystem error: ").concat(m.as_str()),
            AdminError::ExportFailed(m) => String::from_str("export failed: ").concat(m.as_str()),
            AdminError::FactoryResetFailed(m) => String::from_str("factory reset failed: ").concat(m.as_str()),
            AdminError::Internal => String::from_str("internal error"),
        }
    }
}

} // verus!
