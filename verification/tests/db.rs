use cortexos::db::error::DbError;
use cortexos::db::migration::{migration_error, pending_migrations, MigrationStage, MIGRATION_IDS};

#[test]
fn migrations_are_idempotent() {
    let all: Vec<String> = MIGRATION_IDS.iter().map(|s| s.to_string()).collect();
    assert!(pending_migrations(&all).is_empty());
}

#[test]
fn run_migrations_on_fresh_db() {
    let pending = pending_migrations(&vec![]);
    assert_eq!(pending.len(), 12);
    assert_eq!(pending[0], "0001_create_schema_version");
    assert_eq!(pending[11], "0012_create_command_bus_events");
}

#[test]
fn pending_migrations_skip_applied_in_order() {
    let applied = vec!["0002_create_users".to_string(), "0001_create_schema_version".to_string()];
    let pending = pending_migrations(&applied);
    assert_eq!(pending.len(), 10);
    assert_eq!(pending[0], "0003_create_sessions");
}

#[test]
fn migration_errors_name_the_step() {
    match migration_error(MigrationStage::Apply, "0003_create_sessions", "syntax error") {
        DbError::Migration(m) => assert_eq!(m, "migration 0003_create_sessions failed: syntax error"),
        _ => panic!("expected a migration error"),
    }
    assert_eq!(
        DbError::NotFound("row".to_string()).to_message(),
        "not found: row"
    );
}
