//! Diagnostic bundle creation.

use vstd::prelude::*;
use vstd::utf8::encode_utf8;
use crate::admin::constants::MAX_EXPORT_LOG_HOURS;
use crate::admin::error::AdminError;
use crate::admin::redactor::redact_settings;
use crate::admin::types::{DiagnosticBundle, DiagnosticComponent, ExportOptions, SystemInfo};
use crate::base::time::{is_instant_text, now_rfc3339};
use crate::text::{decimal, decimal_text};

verus! {

/// Creates diagnostic export bundles.
pub struct DiagnosticBundler;

/// The components an export holds, in order: logs (with their hours),
/// running apps, permissions, AI usage, crash logs, settings, each when its
/// option is set.
pub open spec fn components_of(o: ExportOptions) -> Seq<DiagnosticComponent> {
    (if o.include_logs { seq![DiagnosticComponent::SystemLogs { hours: o.log_hours }] } else { seq![] })
        + (if o.include_running_apps { seq![DiagnosticComponent::RunningApps] } else { seq![] })
        + (if o.include_permissions { seq![DiagnosticComponent::PermissionGrants] } else { seq![] })
        + (if o.include_ai_usage { seq![DiagnosticComponent::AiUsageSummary] } else { seq![] })
        + (if o.include_crash_logs { seq![DiagnosticComponent::CrashLogs] } else { seq![] })
        + (if o.include_settings { seq![DiagnosticComponent::SystemSettings] } else { seq![] })
}

/// The estimated size of an export in bytes: 1 KiB per log second for each
/// hour of logs, 1 KiB of system info, 50 apps of 256 bytes, 100 permissions
/// of 128 bytes, 2 KiB of AI usage, 10 crash logs of 4 KiB, and the settings
/// text (4 KiB when none is given).
pub open spec fn estimate_total(o: ExportOptions, settings: Option<Seq<char>>) -> int {
    (if o.include_logs { o.log_hours * 3600 * 1024 } else { 0 })
        + (if o.include_system_info { 1024int } else { 0 })
        + (if o.include_running_apps { 50 * 256int } else { 0 })
        + (if o.include_permissions { 100 * 128int } else { 0 })
        + (if o.include_ai_usage { 2048int } else { 0 })
        + (if o.include_crash_logs { 10 * 4096int } else { 0 })
        + (if o.include_settings {
            match settings {
                Some(j) => encode_utf8(j).len() as int,
                None => 4096int,
            }
        } else {
            0
        })
}

/// The text of an optional string.
pub open spec fn opt_view(o: Option<&str>) -> Option<Seq<char>> {
    match o {
        Some(s) => Some(s@),
        None => None,
    }
}

/// The message refusing a log window beyond the maximum.
pub open spec fn too_many_hours_message(hours: u32) -> Seq<char> {
    "log_hours ("@ + decimal_text(hours as nat) + ") exceeds maximum (168)"@
}

impl DiagnosticBundler {
    /// Create a new bundler.
    pub fn new() -> (r: Self) {
        DiagnosticBundler
    }

    /// Estimate the size of the diagnostic bundle before creating it.
    pub fn estimate_size(&self, options: &ExportOptions, settings_json: Option<&str>) -> (r: u64)
        requires
            estimate_total(*options, opt_view(settings_json)) <= u64::MAX,
        ensures
            r == estimate_total(*options, opt_view(settings_json)),
    {
        let mut size: u64 = 0;
        if options.include_logs {
            size = size + options.log_hours as u64 * 3600 * 1024;
        }
        if options.include_system_info {
            size = size + 1024;
        }
        if options.include_running_apps {
            size = size + 50 * 256;
        }
        if options.include_permissions {
            size = size + 100 * 128;
        }
        if options.include_ai_usage {
            size = size + 2048;
        }
        if options.include_crash_logs {
            size = size + 10 * 4096;
        }
        if options.include_settings {
            match settings_json {
                Some(json) => {
                    size = size + json.as_bytes().len() as u64;
                },
                None => {
                    size = size + 4096;
                },
            }
        }
        size
    }

    /// Create a diagnostic bundle from system data. At least one component
    /// must be selected and the log window may not exceed the maximum.
    pub fn create_bundle(&self, options: &ExportOptions, system_info: SystemInfo, settings_json: Option<&str>) -> (r: Result<DiagnosticBundle, AdminError>)
        requires
            options.log_hours <= 168 ==> estimate_total(*options, opt_view(settings_json)) <= u64::MAX,
        ensures
            components_of(*options).len() == 0 ==> (r matches Err(AdminError::ExportFailed(m))
                && m@ == "at least one component must be selected for export"@),
            components_of(*options).len() > 0 && options.log_hours > 168 ==> (r matches Err(AdminError::ExportFailed(m))
                && m@ == too_many_hours_message(options.log_hours)),
            components_of(*options).len() > 0 && options.log_hours <= 168 ==> (r matches Ok(b)
                && b.included_components@ == components_of(*options)
                && b.total_size_bytes == estimate_total(*options, opt_view(settings_json))
                && b.system_info == system_info && is_instant_text(b.exported_at@)),
    {
        let mut components: Vec<DiagnosticComponent> = Vec::new();
        let ghost o = *options;
        if options.include_logs {
            components.push(DiagnosticComponent::SystemLogs { hours: options.log_hours });
        }
        let ghost c1 = components@;
        if options.include_running_apps {
            components.push(DiagnosticComponent::RunningApps);
        }
        let ghost c2 = components@;
        if options.include_permissions {
            components.push(DiagnosticComponent::PermissionGrants);
        }
        let ghost c3 = components@;
        if options.include_ai_usage {
            components.push(DiagnosticComponent::AiUsageSummary);
        }
        let ghost c4 = components@;
        if options.include_crash_logs {
            components.push(DiagnosticComponent::CrashLogs);
        }
        let ghost c5 = components@;
        if options.include_settings {
            components.push(DiagnosticComponent::SystemSettings);
        }
        assert(components@ =~= components_of(o));
        if components.len() == 0 {
            return Err(AdminError::ExportFailed(
                String::from_str("at least one component must be selected for export"),
            ));
        }
        if options.log_hours > MAX_EXPORT_LOG_HOURS {
            let mut m = String::from_str("log_hours (");
            m.append(decimal(options.log_hours as u64).as_str());
            m.append(") exceeds maximum (168)");
            return Err(AdminError::ExportFailed(m));
        }
        if let Some(json) = settings_json {
            if options.include_settings {
                let _redacted = redact_settings(json);
            }
        }
        let total_size_bytes = self.estimate_size(options, settings_json);
        Ok(DiagnosticBundle {
            exported_at: now_rfc3339(),
            system_info,
            included_components: components,
            total_size_bytes,
        })
    }
}

impl Default for DiagnosticBundler {
    fn default() -> (r: Self) {
        DiagnosticBundler::new()
    }
}

/// With the same components selected, a longer log window never gives a
/// smaller size estimate.
pub proof fn lemma_estimate_monotone_in_hours(o1: ExportOptions, o2: ExportOptions, settings: Option<Seq<char>>)
    requires
        o1.include_logs == o2.include_logs,
        o1.include_system_info == o2.include_system_info,
        o1.include_running_apps == o2.include_running_apps,
        o1.include_permissions == o2.include_permissions,
        o1.include_ai_usage == o2.include_ai_usage,
        o1.include_crash_logs == o2.include_crash_logs,
        o1.include_settings == o2.include_settings,
        o1.log_hours <= o2.log_hours,
    ensures
        estimate_total(o1, settings) <= estimate_total(o2, settings),
{
}

/// With the same components selected and logs included, every extra hour
/// of logs makes the estimate strictly larger.
pub proof fn lemma_estimate_strict_in_hours(o1: ExportOptions, o2: ExportOptions, settings: Option<Seq<char>>)
    requires
        o1.include_logs,
        o1.include_logs == o2.include_logs,
        o1.include_system_info == o2.include_system_info,
        o1.include_running_apps == o2.include_running_apps,
        o1.include_permissions == o2.include_permissions,
        o1.include_ai_usage == o2.include_ai_usage,
        o1.include_crash_logs == o2.include_crash_logs,
        o1.include_settings == o2.include_settings,
        o1.log_hours < o2.log_hours,
    ensures
        estimate_total(o1, settings) < estimate_total(o2, settings),
{
    assert(o1.log_hours * 3600 * 1024 < o2.log_hours * 3600 * 1024) by (nonlinear_arith)
        requires
            o1.log_hours < o2.log_hours,
    ;
}

/// Including given settings text adds exactly its length in bytes to the
/// estimate of the same selection without settings.
pub proof fn lemma_estimate_settings_adds_length(with: ExportOptions, without: ExportOptions, settings: Seq<char>)
    requires
        with.include_settings,
        !without.include_settings,
        with.include_logs == without.include_logs,
        with.log_hours == without.log_hours,
        with.include_system_info == without.include_system_info,
        with.include_running_apps == without.include_running_apps,
        with.include_permissions == without.include_permissions,
        with.include_ai_usage == without.include_ai_usage,
        with.include_crash_logs == without.include_crash_logs,
    ensures
        estimate_total(with, Some(settings)) == estimate_total(without, None) + encode_utf8(settings).len(),
{
}

} // verus!
