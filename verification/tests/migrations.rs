use neodlp_bridge::migrations::{get_migrations, MigrationKind, MIGRATION_COUNT};

#[test]
fn migrations_are_numbered_from_one() {
    let migrations = get_migrations();
    assert_eq!(migrations.len(), 4);
    assert_eq!(MIGRATION_COUNT, 4);
    for (i, migration) in migrations.iter().enumerate() {
        assert_eq!(migration.version, i as i64 + 1);
        assert_eq!(migration.kind, MigrationKind::Up);
        assert!(!migration.sql.trim().is_empty());
    }
}

#[test]
fn migrations_are_named() {
    let names: Vec<&str> = get_migrations().iter().map(|m| m.description).collect();
    assert_eq!(
        names,
        vec![
            "create_initial_tables",
            "add_columns_to_downloads",
            "add_use_aria2_column_to_downloads_with_proper_position",
            "add_custom_command_column_to_downloads",
        ]
    );
}

#[test]
fn first_migration_creates_the_downloads_table() {
    let migrations = get_migrations();
    assert!(migrations[0].sql.contains("CREATE TABLE IF NOT EXISTS downloads"));
    assert!(migrations[0].sql.contains("download_status TEXT NOT NULL"));
    assert!(migrations[0].sql.contains("process_id INTEGER"));
    assert!(migrations[1].sql.contains("ALTER TABLE downloads ADD COLUMN output_format TEXT;"));
    assert!(migrations[2].sql.contains("use_aria2"));
    assert!(migrations[3].sql.contains("custom_command"));
}
