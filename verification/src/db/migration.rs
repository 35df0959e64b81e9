//! Migration planning: which numbered schema migrations still have to be
//! applied, in order, and how a failing migration step is reported.

use vstd::prelude::*;
use crate::db::error::DbError;
use crate::text::{equals, texts};

verus! {

/// The built-in migrations, in the order they are applied.
pub const MIGRATION_IDS: [&'static str; 12] = [
    "0001_create_schema_version",
    "0002_create_users",
    "0003_create_sessions",
    "0004_create_permissions",
    "0005_create_settings",
    "0006_create_files",
    "0007_create_notifications",
    "0008_create_apps",
    "0009_create_ai_config",
    "0010_create_audit_log",
    "0011_create_search_index",
    "0012_create_command_bus_events",
];

/// The ids of `ids` that are not among `applied`, in order.
pub open spec fn pending(ids: Seq<Seq<char>>, applied: Seq<Seq<char>>) -> Seq<Seq<char>>
    decreases ids.len(),
{
    if ids.len() == 0 {
        Seq::empty()
    } else {
        let rest = pending(ids.drop_last(), applied);
        if applied.contains(ids.last()) {
            rest
        } else {
            rest.push(ids.last())
        }
    }
}

fn is_applied(id: &str, applied: &Vec<String>) -> (r: bool)
    ensures
        r == texts(applied@).contains(id@),
{
    let mut i: usize = 0;
    while i < applied.len()
        invariant
            i <= applied@.len(),
            forall|j: int| 0 <= j < i ==> texts(applied@)[j] != id@,
        decreases applied.len() - i,
    {
        if equals(applied[i].as_str(), id) {
            assert(texts(applied@)[i as int] == id@);
            return true;
        }
        i = i + 1;
    }
    false
}

/// The migrations still to apply, in order, given the ids already recorded
/// as applied.
pub fn pending_migrations(applied: &Vec<String>) -> (r: Vec<&'static str>)
    ensures
        r@.map_values(|s: &str| s@) == pending(
            MIGRATION_IDS@.map_values(|s: &str| s@),
            texts(applied@),
        ),
{
    let ghost ids = MIGRATION_IDS@.map_values(|s: &str| s@);
    let mut out: Vec<&'static str> = Vec::new();
    let mut i: usize = 0;
    while i < 12
        invariant
            ids == MIGRATION_IDS@.map_values(|s: &str| s@),
            i <= 12,
            out@.map_values(|s: &str| s@) == pending(ids.take(i as int), texts(applied@)),
        decreases 12 - i,
    {
        let id = MIGRATION_IDS[i];
        proof {
            assert(ids.take(i + 1).drop_last() =~= ids.take(i as int));
            assert(ids.take(i + 1).last() == id@);
        }
        if !is_applied(id, applied) {
            let ghost before = out@;
            out.push(id);
            proof {
                assert(out@.map_values(|s: &str| s@) =~= before.map_values(|s: &str| s@).push(id@));
            }
        }
        i = i + 1;
    }
    proof {
        assert(ids.take(12) =~= ids);
    }
    out
}

/// Every id is either already applied or pending.
proof fn lemma_applied_or_pending(ids: Seq<Seq<char>>, applied: Seq<Seq<char>>)
    ensures
        forall|i: int| 0 <= i < ids.len() ==> applied.contains(#[trigger] ids[i]) || pending(ids, applied).contains(ids[i]),
    decreases ids.len(),
{
    if ids.len() > 0 {
        let front = ids.drop_last();
        lemma_applied_or_pending(front, applied);
        let rest = pending(front, applied);
        assert forall|i: int| 0 <= i < ids.len() implies applied.contains(#[trigger] ids[i]) || pending(ids, applied).contains(ids[i]) by {
            if i < ids.len() - 1 {
                assert(front[i] == ids[i]);
                if rest.contains(ids[i]) && !applied.contains(ids.last()) {
                    let k = choose|k: int| 0 <= k < rest.len() && rest[k] == ids[i];
                    assert(rest.push(ids.last())[k] == ids[i]);
                }
            } else if !applied.contains(ids.last()) {
                assert(rest.push(ids.last())[rest.len() as int] == ids.last());
            }
        }
    }
}

/// Nothing is pending of ids that are all applied.
proof fn lemma_nothing_pending(ids: Seq<Seq<char>>, applied: Seq<Seq<char>>)
    requires
        forall|i: int| 0 <= i < ids.len() ==> applied.contains(#[trigger] ids[i]),
    ensures
        pending(ids, applied).len() == 0,
    decreases ids.len(),
{
    if ids.len() > 0 {
        let front = ids.drop_last();
        assert forall|i: int| 0 <= i < front.len() implies applied.contains(#[trigger] front[i]) by {
            assert(front[i] == ids[i]);
        }
        lemma_nothing_pending(front, applied);
        assert(applied.contains(ids[ids.len() - 1]));
    }
}

/// Migrating is idempotent: once the pending migrations are recorded as
/// applied, none is pending any more.
pub proof fn lemma_migrating_twice_applies_nothing(applied: Seq<Seq<char>>)
    ensures
        pending(
            MIGRATION_IDS@.map_values(|s: &str| s@),
            applied + pending(MIGRATION_IDS@.map_values(|s: &str| s@), applied),
        ).len() == 0,
{
    let ids = MIGRATION_IDS@.map_values(|s: &str| s@);
    let p = pending(ids, applied);
    lemma_applied_or_pending(ids, applied);
    assert forall|i: int| 0 <= i < ids.len() implies (applied + p).contains(#[trigger] ids[i]) by {
        if applied.contains(ids[i]) {
            let k = choose|k: int| 0 <= k < applied.len() && applied[k] == ids[i];
            assert((applied + p)[k] == ids[i]);
        } else {
            let k = choose|k: int| 0 <= k < p.len() && p[k] == ids[i];
            assert((applied + p)[applied.len() + k] == ids[i]);
        }
    }
    lemma_nothing_pending(ids, applied + p);
}

/// The step of a migration run that failed.
#[derive(Debug, Clone, Copy, PartialEq, Eq, Structural)]
pub enum MigrationStage {
    /// Creating the table that records applied migrations.
    CreateVersionTable,
    /// Checking whether a migration was applied.
    Check,
    /// Running a migration.
    Apply,
    /// Recording a migration as applied.
    Record,
}

/// The error a failed migration step is reported with.
pub fn migration_error(stage: MigrationStage, id: &str, cause: &str) -> (r: DbError)
    ensures
        r matches DbError::Migration(m) && m@ == match stage {
            MigrationStage::CreateVersionTable => "cannot create schema_version: "@ + cause@,
            MigrationStage::Check => "migration check failed: "@ + cause@,
            MigrationStage::Apply => "migration "@ + id@ + " failed: "@ + cause@,
            MigrationStage::Record => "cannot record migration "@ + id@ + ": "@ + cause@,
        },
{
    let m = match stage {
        MigrationStage::CreateVersionTable => String::from_str("cannot create schema_version: ").concat(cause),
        MigrationStage::Check => String::from_str("migration check failed: ").concat(cause),
        MigrationStage::Apply => String::from_str("migration ").concat(id).concat(" failed: ").concat(cause),
        MigrationStage::Record => String::from_str("cannot record migration ").concat(id).concat(": ").concat(cause),
    };
    DbError::Migration(m)
}

} // verus!
