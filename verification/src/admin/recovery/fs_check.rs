//! Filesystem verification and repair decisions.
//!
//! The checks look at two directories and two database tables; the repair
//! recreates missing directories. What the filesystem and the database
//! report is handed in; the items, messages and the repair plan are
//! computed here.

use vstd::prelude::*;
use crate::admin::error::AdminError;
use crate::admin::types::{FsCheckItem, FsCheckResult, FsCheckStatus, count_status};
use crate::db::error::DbError;
use crate::text::{equals, signed_decimal, signed_decimal_text};

verus! {

/// The directory of `base`'s `cortexos` subdirectory, where `base` is the
/// XDG directory if set, else `$HOME` (or `/tmp`) joined with `fallback`.
pub open spec fn xdg_dir_text(xdg: Option<Seq<char>>, home: Option<Seq<char>>, fallback: Seq<char>) -> Seq<char> {
    let base = match xdg {
        Some(x) => x,
        None => match home {
            Some(h) => h + fallback,
            None => "/tmp"@ + fallback,
        },
    };
    base + "/cortexos"@
}

fn xdg_dir(xdg: Option<&str>, home: Option<&str>, fallback: &str) -> (r: String)
    ensures
        r@ == xdg_dir_text(
            match xdg {
                Some(x) => Some(x@),
                None => None,
            },
            match home {
                Some(h) => Some(h@),
                None => None,
            },
            fallback@,
        ),
{
    let base = match xdg {
        Some(x) => String::from_str(x),
        None => match home {
            Some(h) => String::from_str(h).concat(fallback),
            None => String::from_str("/tmp").concat(fallback),
        },
    };
    base.concat("/cortexos")
}

/// The expected configuration directory, from `$XDG_CONFIG_HOME` and
/// `$HOME`.
pub fn dirs_config_path(xdg_config_home: Option<&str>, home: Option<&str>) -> (r: String)
    ensures
        r@ == xdg_dir_text(
            match xdg_config_home {
                Some(x) => Some(x@),
                None => None,
            },
            match home {
                Some(h) => Some(h@),
                None => None,
            },
            "/.config"@,
        ),
{
    xdg_dir(xdg_config_home, home, "/.config")
}

/// The expected data directory, from `$XDG_DATA_HOME` and `$HOME`.
pub fn dirs_data_path(xdg_data_home: Option<&str>, home: Option<&str>) -> (r: String)
    ensures
        r@ == xdg_dir_text(
            match xdg_data_home {
                Some(x) => Some(x@),
                None => None,
            },
            match home {
                Some(h) => Some(h@),
                None => None,
            },
            "/.local/share"@,
        ),
{
    xdg_dir(xdg_data_home, home, "/.local/share")
}

/// What repairing an item takes.
#[derive(Debug, Clone, Copy, PartialEq, Eq, Structural)]
pub enum RepairAction {
    /// The item is marked as not repairable.
    NotRepairable,
    /// Create the directory at the item's path (configuration directory).
    CreateConfigDir,
    /// Create the directory at the item's path (app data directory).
    CreateAppDataDir,
    /// No repair is known for this check.
    NoHandler,
}

/// The repair that an item calls for.
pub open spec fn repair_action_of(item: FsCheckItem) -> RepairAction {
    if !item.repairable {
        RepairAction::NotRepairable
    } else if item.check_name@ == "config_dir"@ {
        RepairAction::CreateConfigDir
    } else if item.check_name@ == "app_data_dir"@ {
        RepairAction::CreateAppDataDir
    } else {
        RepairAction::NoHandler
    }
}

/// The error of a repair attempt, given the outcome of the directory
/// creation it made (if it made one).
pub open spec fn repair_error(item: FsCheckItem, created: Result<(), String>) -> Option<Seq<char>> {
    match repair_action_of(item) {
        RepairAction::CreateConfigDir => match created {
            Ok(_) => None,
            Err(e) => Some("cannot create config dir: "@ + e@),
        },
        RepairAction::CreateAppDataDir => match created {
            Ok(_) => None,
            Err(e) => Some("cannot create app data dir: "@ + e@),
        },
        _ => Some("no repair handler for: "@ + item.check_name@),
    }
}

/// `out` is the result of repairing `item`, where `created` is the outcome
/// of the directory creation that the repair made (if it made one).
pub open spec fn repaired(item: FsCheckItem, created: Result<(), String>, out: FsCheckItem) -> bool {
    &&& out.check_name@ == item.check_name@
    &&& out.path@ == item.path@
    &&& if !item.repairable {
        &&& out.status == FsCheckStatus::Error
        &&& out.message@ == "Not repairable: "@ + item.message@
        &&& !out.repairable
    } else {
        match repair_error(item, created) {
            None => {
                &&& out.status == FsCheckStatus::Pass
                &&& out.message@ == "Repaired successfully"@
                &&& !out.repairable
            },
            Some(e) => {
                &&& out.status == FsCheckStatus::Error
                &&& out.message@ == "Repair failed: "@ + "filesystem error: "@ + e
                &&& out.repairable
            },
        }
    }
}

fn make_item(check_name: &str, path: &str, status: FsCheckStatus, message: String, repairable: bool) -> (r: FsCheckItem)
    ensures
        r.check_name@ == check_name@,
        r.path@ == path@,
        r.status == status,
        r.message@ == message@,
        r.repairable == repairable,
{
    FsCheckItem {
        check_name: String::from_str(check_name),
        path: String::from_str(path),
        status,
        message,
        repairable,
    }
}

/// Filesystem and database checks and their repair.
pub struct FsChecker;

impl FsChecker {
    /// The configuration directory check: passes when the directory exists,
    /// else warns and may be repaired.
    pub fn check_config_dir(path: &str, exists: bool) -> (r: FsCheckItem)
        ensures
            r.check_name@ == "config_dir"@,
            r.path@ == path@,
            exists ==> r.status == FsCheckStatus::Pass && r.message@
                == "Configuration directory exists"@ && !r.repairable,
            !exists ==> r.status == FsCheckStatus::Warning && r.message@
                == "Configuration directory missing"@ && r.repairable,
    {
        if exists {
            make_item("config_dir", path, FsCheckStatus::Pass, String::from_str("Configuration directory exists"), false)
        } else {
            make_item("config_dir", path, FsCheckStatus::Warning, String::from_str("Configuration directory missing"), true)
        }
    }

    /// The app data directory check: passes when the directory exists, else
    /// warns and may be repaired.
    pub fn check_app_data_dir(path: &str, exists: bool) -> (r: FsCheckItem)
        ensures
            r.check_name@ == "app_data_dir"@,
            r.path@ == path@,
            exists ==> r.status == FsCheckStatus::Pass && r.message@ == "App data directory exists"@
                && !r.repairable,
            !exists ==> r.status == FsCheckStatus::Warning && r.message@
                == "App data directory missing"@ && r.repairable,
    {
        if exists {
            make_item("app_data_dir", path, FsCheckStatus::Pass, String::from_str("App data directory exists"), false)
        } else {
            make_item("app_data_dir", path, FsCheckStatus::Warning, String::from_str("App data directory missing"), true)
        }
    }

    /// The app registry check, from the outcome of counting its rows.
    pub fn check_app_registry(count: &Result<i64, DbError>) -> (r: FsCheckItem)
        ensures
            r.check_name@ == "app_registry"@,
            r.path@ == "sqlite://app_instances"@,
            !r.repairable,
            match count {
                Ok(n) => r.status == FsCheckStatus::Pass && r.message@ == "App registry has "@
                    + signed_decimal_text(*n as int) + " entries"@,
                Err(e) => r.status == FsCheckStatus::Error && r.message@
                    == "App registry query failed: "@ + e.message_of(),
            },
    {
        match count {
            Ok(n) => {
                let digits = signed_decimal(*n);
                let message = String::from_str("App registry has ").concat(digits.as_str()).concat(" entries");
                make_item("app_registry", "sqlite://app_instances", FsCheckStatus::Pass, message, false)
            },
            Err(e) => {
                let text = e.to_message();
                let message = String::from_str("App registry query failed: ").concat(text.as_str());
                make_item("app_registry", "sqlite://app_instances", FsCheckStatus::Error, message, false)
            },
        }
    }

    /// The settings table check, from the outcome of counting its rows.
    pub fn check_settings(count: &Result<i64, DbError>) -> (r: FsCheckItem)
        ensures
            r.check_name@ == "settings_integrity"@,
            r.path@ == "sqlite://settings"@,
            !r.repairable,
            match count {
                Ok(n) => r.status == FsCheckStatus::Pass && r.message@ == "Settings table has "@
                    + signed_decimal_text(*n as int) + " entries"@,
                Err(e) => r.status == FsCheckStatus::Error && r.message@ == "Settings query failed: "@
                    + e.message_of(),
            },
    {
        match count {
            Ok(n) => {
                let digits = signed_decimal(*n);
                let message = String::from_str("Settings table has ").concat(digits.as_str()).concat(" entries");
                make_item("settings_integrity", "sqlite://settings", FsCheckStatus::Pass, message, false)
            },
            Err(e) => {
                let text = e.to_message();
                let message = String::from_str("Settings query failed: ").concat(text.as_str());
                make_item("settings_integrity", "sqlite://settings", FsCheckStatus::Error, message, false)
            },
        }
    }

    /// The result of all four checks, in order: configuration directory,
    /// app data directory, app registry, settings.
    pub fn verify(
        config_dir: &str,
        config_exists: bool,
        data_dir: &str,
        data_exists: bool,
        registry_count: &Result<i64, DbError>,
        settings_count: &Result<i64, DbError>,
    ) -> (r: FsCheckResult)
        ensures
            r.items@.len() == 4,
            r.total_checked == 4,
            r.items@[0].check_name@ == "config_dir"@,
            r.items@[0].path@ == config_dir@,
            r.items@[0].status == (if config_exists { FsCheckStatus::Pass } else { FsCheckStatus::Warning }),
            r.items@[1].check_name@ == "app_data_dir"@,
            r.items@[1].path@ == data_dir@,
            r.items@[1].status == (if data_exists { FsCheckStatus::Pass } else { FsCheckStatus::Warning }),
            r.items@[2].check_name@ == "app_registry"@,
            r.items@[2].status == (if registry_count is Ok { FsCheckStatus::Pass } else { FsCheckStatus::Error }),
            r.items@[3].check_name@ == "settings_integrity"@,
            r.items@[3].status == (if settings_count is Ok { FsCheckStatus::Pass } else { FsCheckStatus::Error }),
            r.passed == count_status(r.items@, FsCheckStatus::Pass),
            r.warnings == count_status(r.items@, FsCheckStatus::Warning),
            r.errors == count_status(r.items@, FsCheckStatus::Error),
    {
        let mut items: Vec<FsCheckItem> = Vec::new();
        items.push(Self::check_config_dir(config_dir, config_exists));
        items.push(Self::check_app_data_dir(data_dir, data_exists));
        items.push(Self::check_app_registry(registry_count));
        items.push(Self::check_settings(settings_count));
        let r = FsCheckResult::from_items(items);
        proof {
            crate::admin::types::lemma_count_bounded(r.items@, FsCheckStatus::Pass);
            crate::admin::types::lemma_count_bounded(r.items@, FsCheckStatus::Warning);
            crate::admin::types::lemma_count_bounded(r.items@, FsCheckStatus::Error);
        }
        r
    }

    /// The repair that an item calls for.
    pub fn repair_action(item: &FsCheckItem) -> (r: RepairAction)
        ensures
            r == repair_action_of(*item),
    {
        if !item.repairable {
            RepairAction::NotRepairable
        } else if equals(item.check_name.as_str(), "config_dir") {
            RepairAction::CreateConfigDir
        } else if equals(item.check_name.as_str(), "app_data_dir") {
            RepairAction::CreateAppDataDir
        } else {
            RepairAction::NoHandler
        }
    }

    fn repair_one(item: &FsCheckItem, created: &Result<(), String>) -> (r: FsCheckItem)
        ensures
            repaired(*item, *created, r),
    {
        let action = Self::repair_action(item);
        let check_name = item.check_name.as_str();
        let path = item.path.as_str();
        match action {
            RepairAction::NotRepairable => {
                let message = String::from_str("Not repairable: ").concat(item.message.as_str());
                make_item(check_name, path, FsCheckStatus::Error, message, false)
            },
            _ => {
                let failure: Option<String> = match action {
                    RepairAction::CreateConfigDir => match created {
                        Ok(_) => None,
                        Err(e) => Some(String::from_str("cannot create config dir: ").concat(e.as_str())),
                    },
                    RepairAction::CreateAppDataDir => match created {
                        Ok(_) => None,
                        Err(e) => Some(String::from_str("cannot create app data dir: ").concat(e.as_str())),
                    },
                    _ => Some(String::from_str("no repair handler for: ").concat(check_name)),
                };
                match failure {
                    None => make_item(check_name, path, FsCheckStatus::Pass, String::from_str("Repaired successfully"), false),
                    Some(f) => {
                        let err = AdminError::FilesystemError(f);
                        let text = err.to_message();
                        let message = String::from_str("Repair failed: ").concat(text.as_str());
                        proof {
                            assert(message@ =~= "Repair failed: "@ + "filesystem error: "@ + err->FilesystemError_0@);
                        }
                        make_item(check_name, path, FsCheckStatus::Error, message, true)
                    },
                }
            },
        }
    }

    /// The result of repairing the given items, in order. `created[i]` is the
    /// outcome of creating the directory that item `i`'s repair calls for
    /// (see [`FsChecker::repair_action`]); it is ignored for other items.
    pub fn repair(items: &Vec<FsCheckItem>, created: &Vec<Result<(), String>>) -> (r: FsCheckResult)
        requires
            created@.len() == items@.len(),
        ensures
            r.items@.len() == items@.len(),
            forall|i: int| 0 <= i < items@.len() ==> repaired(items@[i], created@[i], #[trigger] r.items@[i]),
            r.total_checked == items@.len() as u32,
            r.passed == count_status(r.items@, FsCheckStatus::Pass) as u32,
            r.warnings == count_status(r.items@, FsCheckStatus::Warning) as u32,
            r.errors == count_status(r.items@, FsCheckStatus::Error) as u32,
    {
        let mut out: Vec<FsCheckItem> = Vec::new();
        let mut i: usize = 0;
        while i < items.len()
            invariant
                created@.len() == items@.len(),
                i <= items@.len(),
                out@.len() == i,
                forall|j: int| 0 <= j < i ==> repaired(items@[j], created@[j], #[trigger] out@[j]),
            decreases items.len() - i,
        {
            let one = Self::repair_one(&items[i], &created[i]);
            out.push(one);
            i = i + 1;
        }
        FsCheckResult::from_items(out)
    }
}

} // verus!
