//! Crash recording and the automatic-restart policy.

use vstd::prelude::*;
use crate::admin::constants::MAX_AUTO_RESTART_ATTEMPTS;
use crate::admin::types::{path_from, path_of, CrashRecord};
use crate::base::ids::new_uuid_v7;
use crate::base::time::{is_instant_text, now_rfc3339};

verus! {

/// The crash log file of an app: `/var/log/cortexos/crash_{app_id}.log`.
pub open spec fn crash_log_text(app_id: Seq<char>) -> Seq<char> {
    "/var/log/cortexos/crash_"@ + app_id + ".log"@
}

/// Crash handling policy: how many automatic restarts an app gets per
/// session.
#[derive(Debug, Clone, Copy)]
pub struct CrashHandler {
    max_restart_attempts: u32,
}

impl CrashHandler {
    /// The number of automatic restarts allowed per app and session.
    pub closed spec fn max_attempts(&self) -> u32 {
        self.max_restart_attempts
    }

    /// A crash handler with the default limit of 3 restarts.
    pub fn new() -> (r: Self)
        ensures
            r.max_attempts() == MAX_AUTO_RESTART_ATTEMPTS,
            r.max_attempts() == 3,
    {
        CrashHandler { max_restart_attempts: MAX_AUTO_RESTART_ATTEMPTS }
    }

    /// A crash handler with a custom restart limit.
    pub fn with_max_attempts(max: u32) -> (r: Self)
        ensures
            r.max_attempts() == max,
    {
        CrashHandler { max_restart_attempts: max }
    }

    /// The restart limit.
    pub fn max_restart_attempts(&self) -> (r: u32)
        ensures
            r == self.max_attempts(),
    {
        self.max_restart_attempts
    }

    /// Whether an app that has been restarted `attempts` times (the highest
    /// count recorded for it) may be restarted again.
    pub fn should_auto_restart(&self, attempts: u32) -> (r: bool)
        ensures
            r == (attempts < self.max_attempts()),
    {
        attempts < self.max_restart_attempts
    }

    /// The text of the crash log path of an app.
    pub fn crash_log_text(&self, app_id: &str) -> (r: String)
        ensures
            r@ == crash_log_text(app_id@),
    {
        let mut s = String::from_str("/var/log/cortexos/crash_");
        s.append(app_id);
        s.append(".log");
        s
    }

    /// The crash log path of an app.
    pub fn crash_log_path(&self, app_id: &str) -> (r: std::path::PathBuf)
        ensures
            r == path_of(crash_log_text(app_id@)),
    {
        let text = self.crash_log_text(app_id);
        path_from(text.as_str())
    }

    /// A new crash record, stamped with a fresh time-ordered id and the
    /// current time, carrying the restart count already recorded for the
    /// app.
    pub fn new_record(
        &self,
        app_id: &str,
        app_name: &str,
        exit_code: i32,
        signal: Option<i32>,
        crash_log_path: &str,
        existing_attempts: u32,
    ) -> (r: CrashRecord)
        ensures
            r.app_id@ == app_id@,
            r.app_name@ == app_name@,
            r.exit_code == exit_code,
            r.signal == signal,
            r.crash_log_path == path_of(crash_log_path@),
            r.auto_restart_attempts == existing_attempts,
            is_instant_text(r.crash_time@),
    {
        CrashRecord {
            id: new_uuid_v7(),
            app_id: String::from_str(app_id),
            app_name: String::from_str(app_name),
            exit_code,
            signal,
            crash_time: now_rfc3339(),
            crash_log_path: path_from(crash_log_path),
            auto_restart_attempts: existing_attempts,
        }
    }
}

} // verus!
