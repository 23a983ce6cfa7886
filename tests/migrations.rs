use diesel_guard::config::{Config, ConfigError};
use diesel_guard::migrations::{
    contains_migrate_markers, detect_concurrently_operations, extract_down_section,
    extract_up_section, parse_sqlx_directives, should_check_migration, DieselAdapter,
    SqlxAdapter,
};
use diesel_guard::migrations::{
    concurrently_without_directive, single_file_migrations, suffix_parts, MigrationDirection,
    MigrationMetadata,
};
use diesel_guard::parse_errors::parse_byte_position;

#[test]
fn test_parse_timestamp_with_underscores() {
    let adapter = DieselAdapter;
    assert_eq!(
        adapter.parse_timestamp("2024_01_01_000000_create_users"),
        Some("20240101000000".to_string())
    );
}

#[test]
fn test_parse_timestamp_with_dashes() {
    let adapter = DieselAdapter;
    assert_eq!(
        adapter.parse_timestamp("2024-01-01-000000_create_users"),
        Some("20240101000000".to_string())
    );
}

#[test]
fn test_parse_timestamp_no_separators() {
    let adapter = DieselAdapter;
    assert_eq!(
        adapter.parse_timestamp("20240101000000_create_users"),
        Some("20240101000000".to_string())
    );
}

#[test]
fn diesel_test_parse_timestamp_invalid() {
    let adapter = DieselAdapter;
    assert_eq!(adapter.parse_timestamp("invalid_name"), None);
    assert_eq!(adapter.parse_timestamp("2024_01_01"), None);
}

#[test]
fn diesel_test_validate_timestamp() {
    let adapter = DieselAdapter;
    assert!(adapter.validate_timestamp("2024_01_01_000000").is_ok());
    assert!(adapter.validate_timestamp("2024-01-01-000000").is_ok());
    assert!(adapter.validate_timestamp("20240101000000").is_ok());
    assert!(adapter.validate_timestamp("invalid").is_err());
}

#[test]
fn diesel_test_should_check_migration() {
    // No filter - check all
    assert!(should_check_migration(None, "20240101000000"));
    assert!(should_check_migration(None, "20200101000000"));

    // With filter - check only after
    assert!(should_check_migration(
        Some("20240101000000"),
        "20240102000000"
    ));
    assert!(!should_check_migration(
        Some("20240101000000"),
        "20240101000000"
    ));
    assert!(!should_check_migration(
        Some("20240101000000"),
        "20231231235959"
    ));
}

#[test]
fn diesel_test_should_check_migration_mixed_formats() {
    // start_after with underscores vs migration without
    assert!(should_check_migration(
        Some("2024_01_01_000000"),
        "20240102000000"
    ));
    assert!(!should_check_migration(
        Some("2024_01_01_000000"),
        "20240101000000"
    ));

    // start_after without separators vs migration with dashes
    assert!(should_check_migration(
        Some("20240101000000"),
        "2024-01-02-000000"
    ));
    assert!(!should_check_migration(
        Some("20240101000000"),
        "2024-01-01-000000"
    ));
}

#[test]
fn test_parse_timestamp() {
    let adapter = SqlxAdapter;
    assert_eq!(
        adapter.parse_timestamp("20240101000000_create_users"),
        Some("20240101000000".to_string())
    );
    assert_eq!(
        adapter.parse_timestamp("20240101000000.up.sql"),
        Some("20240101000000".to_string())
    );
    assert_eq!(
        adapter.parse_timestamp("20240101000000"),
        Some("20240101000000".to_string())
    );
}

#[test]
fn sqlx_test_parse_timestamp_invalid() {
    let adapter = SqlxAdapter;
    assert_eq!(adapter.parse_timestamp("invalid_name"), None);
    assert_eq!(adapter.parse_timestamp("2024_01_01_000000"), None);
    assert_eq!(adapter.parse_timestamp("2024010100000"), None); // Only 13 digits
}

#[test]
fn sqlx_test_validate_timestamp() {
    let adapter = SqlxAdapter;
    assert!(adapter.validate_timestamp("20240101000000").is_ok());
    assert!(adapter.validate_timestamp("20231231235959").is_ok());
    assert!(adapter.validate_timestamp("2024_01_01_000000").is_err()); // Has separators
    assert!(adapter.validate_timestamp("2024010100000").is_err()); // Only 13 digits
    assert!(adapter.validate_timestamp("invalid").is_err());
}

#[test]
fn test_parse_sqlx_directives() {
    let sql = "-- migrate:no-transaction\nCREATE INDEX CONCURRENTLY idx;";
    let metadata = parse_sqlx_directives(sql);
    assert!(metadata.requires_no_transaction);

    let sql_no_directive = "CREATE INDEX CONCURRENTLY idx;";
    let metadata = parse_sqlx_directives(sql_no_directive);
    assert!(!metadata.requires_no_transaction);
}

#[test]
fn test_detect_concurrently_operations() {
    assert!(detect_concurrently_operations(
        "CREATE INDEX CONCURRENTLY idx;"
    ));
    assert!(detect_concurrently_operations(
        "drop index concurrently idx;"
    ));
    assert!(!detect_concurrently_operations("CREATE INDEX idx;"));
}

#[test]
fn test_contains_migrate_markers() {
    let sql_with_markers = "-- migrate:up\nCREATE TABLE;\n-- migrate:down\nDROP TABLE;";
    assert!(contains_migrate_markers(sql_with_markers));

    let sql_no_down = "-- migrate:up\nCREATE TABLE;";
    assert!(!contains_migrate_markers(sql_no_down));

    let sql_no_markers = "CREATE TABLE;";
    assert!(!contains_migrate_markers(sql_no_markers));
}

#[test]
fn sqlx_test_should_check_migration() {
    // No filter
    assert!(should_check_migration(None, "20240101000000"));

    // With filter
    assert!(should_check_migration(
        Some("20240101000000"),
        "20240102000000"
    ));
    assert!(!should_check_migration(
        Some("20240101000000"),
        "20240101000000"
    ));
    assert!(!should_check_migration(
        Some("20240101000000"),
        "20231231235959"
    ));
}

#[test]
fn test_default_config() {
    let config = Config::default();
    assert_eq!(config.start_after, None);
    assert!(!config.check_down);
    assert_eq!(config.disable_checks.len(), 0);
}

#[test]
fn test_should_check_migration_no_filter() {
    let config = Config::default();
    assert!(config.should_check_migration("2024_01_01_000000_create_users"));
    assert!(config.should_check_migration("2020_01_01_000000_old_migration"));
}

#[test]
fn test_should_check_migration_with_filter() {
    let config = Config {
        start_after: Some("2024_01_01_000000".to_string()),
        ..Default::default()
    };

    // Should check (strictly after threshold)
    assert!(config.should_check_migration("2024_01_02_000000_new_migration"));
    assert!(config.should_check_migration("2024_06_15_120000_another_migration"));

    // Should NOT check (before or equal to threshold)
    assert!(!config.should_check_migration("2024_01_01_000000_exact_match"));
    assert!(!config.should_check_migration("2023_12_31_235959_old_migration"));
    assert!(!config.should_check_migration("2020_01_01_000000_very_old"));
}

#[test]
fn config_test_should_check_migration_mixed_formats() {
    // Test start_after with underscores against folders with different formats
    let config_underscores = Config {
        start_after: Some("2024_01_01_000000".to_string()),
        ..Default::default()
    };

    // Folder with dashes - should check (after threshold)
    assert!(config_underscores.should_check_migration("2024-01-02-000000_new_migration"));
    assert!(config_underscores.should_check_migration("2024-06-15-120000_another_migration"));

    // Folder with dashes - should NOT check (before or equal)
    assert!(!config_underscores.should_check_migration("2024-01-01-000000_exact_match"));
    assert!(!config_underscores.should_check_migration("2023-12-31-235959_old_migration"));

    // Folder without separators - should check (after threshold)
    assert!(config_underscores.should_check_migration("20240102000000_new_migration"));
    assert!(config_underscores.should_check_migration("20240615120000_another_migration"));

    // Folder without separators - should NOT check (before or equal)
    assert!(!config_underscores.should_check_migration("20240101000000_exact_match"));
    assert!(!config_underscores.should_check_migration("20231231235959_old_migration"));

    // Test start_after with dashes against folders with different formats
    let config_dashes = Config {
        start_after: Some("2024-01-01-000000".to_string()),
        ..Default::default()
    };

    // Folder with underscores - should check (after threshold)
    assert!(config_dashes.should_check_migration("2024_01_02_000000_new_migration"));
    assert!(!config_dashes.should_check_migration("2024_01_01_000000_exact_match"));

    // Folder without separators - should check (after threshold)
    assert!(config_dashes.should_check_migration("20240102000000_new_migration"));
    assert!(!config_dashes.should_check_migration("20240101000000_exact_match"));

    // Test start_after without separators against folders with different formats
    let config_no_sep = Config {
        start_after: Some("20240101000000".to_string()),
        ..Default::default()
    };

    // Folder with underscores - should check (after threshold)
    assert!(config_no_sep.should_check_migration("2024_01_02_000000_new_migration"));
    assert!(!config_no_sep.should_check_migration("2024_01_01_000000_exact_match"));

    // Folder with dashes - should check (after threshold)
    assert!(config_no_sep.should_check_migration("2024-01-02-000000_new_migration"));
    assert!(!config_no_sep.should_check_migration("2024-01-01-000000_exact_match"));
}

#[test]
fn test_is_check_enabled() {
    let config = Config {
        disable_checks: vec!["AddColumnCheck".to_string(), "DropColumnCheck".to_string()],
        ..Default::default()
    };

    assert!(!config.is_check_enabled("AddColumnCheck"));
    assert!(!config.is_check_enabled("DropColumnCheck"));
    assert!(config.is_check_enabled("AddIndexCheck"));
    assert!(config.is_check_enabled("AddNotNullCheck"));
}

#[test]
fn test_valid_diesel_framework() {
    let config = Config {
        framework: "diesel".to_string(),
        ..Default::default()
    };
    assert!(config.validate().is_ok());
}

#[test]
fn test_valid_sqlx_framework() {
    let config = Config {
        framework: "sqlx".to_string(),
        ..Default::default()
    };
    assert!(config.validate().is_ok());
}

#[test]
fn test_default_config_has_valid_framework() {
    let config = Config::default();
    assert_eq!(config.framework, "diesel");
    assert!(config.validate().is_ok());
}

#[test]
fn test_parse_byte_position() {
    let msg = "syntax error at or near \"INVALID\" at position 42";
    assert_eq!(parse_byte_position(msg), Some(41)); // 1-based → 0-based
}

#[test]
fn test_parse_byte_position_no_position() {
    let msg = "some error without position info";
    assert_eq!(parse_byte_position(msg), None);
}

#[test]
fn test_parse_byte_position_single_digit() {
    let msg = "error at position 1";
    assert_eq!(parse_byte_position(msg), Some(0)); // 1-based → 0-based
}

#[test]
fn test_extract_up_section() {
    let sql = r#"-- migrate:up
CREATE TABLE users (id INT);

-- migrate:down
DROP TABLE users;"#;

    let up_section = extract_up_section(sql);
    assert!(up_section.contains("CREATE TABLE users"));
    assert!(!up_section.contains("DROP TABLE users"));
    assert!(!up_section.contains("-- migrate:down"));
}

#[test]
fn test_extract_down_section() {
    let sql = r#"-- migrate:up
CREATE TABLE users (id INT);

-- migrate:down
DROP TABLE users;"#;

    let down_section = extract_down_section(sql);
    assert!(down_section.contains("DROP TABLE users"));
    assert!(!down_section.contains("CREATE TABLE users"));
}

#[test]
fn test_extract_up_section_no_markers() {
    let sql = "CREATE TABLE users (id INT);";
    let up_section = extract_up_section(sql);
    assert_eq!(up_section, sql);
}

#[test]
fn test_extract_down_section_no_marker() {
    let sql = "CREATE TABLE users (id INT);";
    let down_section = extract_down_section(sql);
    assert_eq!(down_section, "");
}

#[test]
fn test_extract_up_section_no_down_marker() {
    let sql = r#"-- migrate:up
CREATE TABLE users (id INT);"#;

    let up_section = extract_up_section(sql);
    assert!(up_section.contains("CREATE TABLE users"));
}
#[test]
fn sections_with_upper_case_markers() {
    let sql = "-- MIGRATE:UP\nCREATE TABLE t (id INT);\n-- Migrate:Down\nDROP TABLE t;";
    let up = extract_up_section(sql);
    assert_eq!(up, "\nCREATE TABLE t (id INT);\n");
    assert_eq!(extract_down_section(sql), "\nDROP TABLE t;");
}

#[test]
fn directive_with_blanks() {
    assert!(parse_sqlx_directives("SELECT 1;\n   --   migrate:no-transaction  \r\n").requires_no_transaction);
    assert!(!parse_sqlx_directives("-- migrate:no-transaction please").requires_no_transaction);
    assert!(!parse_sqlx_directives("").requires_no_transaction);
}

#[test]
fn byte_position_edge_cases() {
    assert_eq!(parse_byte_position("at position 0"), Some(0));
    assert_eq!(parse_byte_position("at position 7 then at position 12x"), Some(11));
    assert_eq!(parse_byte_position("at position x"), None);
    assert_eq!(parse_byte_position("at position 99999999999999999999999"), None);
}

#[test]
fn start_after_ignores_separators() {
    let config = Config { start_after: Some("2024-01-01-000000".to_string()), ..Default::default() };
    assert!(config.should_check_migration("2024_01_01_000001_x"));
    assert!(config.should_check_migration("no_timestamp_here"));
    assert!(!should_check_migration(Some("2024_01_01_000000"), "2024-01-01-000000"));
}

#[test]
fn suffix_marks_direction() {
    assert_eq!(suffix_parts("20240101000000_add.up").map(|(d, s)| (d, s)), Some((MigrationDirection::Up, "20240101000000_add".to_string())));
    assert_eq!(suffix_parts("20240101000000.down"), Some((MigrationDirection::Down, "20240101000000".to_string())));
    assert_eq!(suffix_parts("20240101000000_add"), None);
}

#[test]
fn single_file_with_markers_gives_both_directions() {
    let content = "-- migrate:no-transaction\n-- migrate:up\nCREATE TABLE t();\n-- migrate:down\nDROP TABLE t;";
    let files = single_file_migrations("m/1_t.sql", "1", content, true);
    assert_eq!(files.len(), 2);
    assert_eq!(files[0].direction, MigrationDirection::Up);
    assert_eq!(files[1].direction, MigrationDirection::Down);
    assert!(files.iter().all(|f| f.requires_no_transaction && f.path == "m/1_t.sql"));
    assert_eq!(single_file_migrations("m/1_t.sql", "1", content, false).len(), 1);
    assert_eq!(single_file_migrations("m/1_t.sql", "1", "CREATE TABLE t();", true).len(), 1);
}

#[test]
fn concurrently_needs_directive() {
    let off = MigrationMetadata { requires_no_transaction: false };
    let on = MigrationMetadata { requires_no_transaction: true };
    assert!(concurrently_without_directive("CREATE INDEX CONCURRENTLY i ON t(a);", &off));
    assert!(!concurrently_without_directive("CREATE INDEX CONCURRENTLY i ON t(a);", &on));
    assert!(!concurrently_without_directive("CREATE INDEX i ON t(a);", &off));
}

#[test]
fn config_error_help() {
    let e = ConfigError::InvalidCheckName { invalid_name: "Nope".to_string() };
    assert_eq!(e.code(), "diesel_guard::config::invalid_check");
    let help = e.help();
    assert!(help.starts_with("Valid check names: AddColumnCheck, AddIndexCheck, "));
    assert!(help.ends_with("WideIndexCheck"));
    assert_eq!(ConfigError::MissingFramework.code(), "diesel_guard::config::missing_framework");
    assert!(ConfigError::InvalidFramework { framework: "rails".to_string() }.help().contains("\"sqlx\""));
}

#[test]
fn invalid_framework_is_rejected() {
    let config = Config { framework: "Diesel".to_string(), ..Default::default() };
    assert!(matches!(config.validate(), Err(ConfigError::InvalidFramework { .. })));
}
