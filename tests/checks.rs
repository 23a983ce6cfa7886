use diesel_guard::checks::{Check, CharTypeCheck, DropColumnCheck, ReindexCheck};
use diesel_guard::config::Config;
use diesel_guard::ignore::{byte_offset_to_line, parse_ignore_ranges};
use diesel_guard::registry::{BuiltinCheck, CheckEntry, Registry};
use diesel_guard::tree::{
    AlterKind, AlterTableCmd, CmdDef, ColumnDef, Constraint, ConstraintKind, DropStmt, ExprKind,
    IndexElem, IndexStmt, ObjectKind, RangeVar, RawStatement, ReindexKind, ReindexStmt,
    Statement, TableElement,
};
use diesel_guard::violation::Violation;

// Statement trees are written out as the parser produces them for the SQL
// text that each test checks; the text itself goes through the registry.

fn rel(name: &str) -> Option<RangeVar> {
    match name.split_once('.') {
        Some((s, r)) => Some(RangeVar { schemaname: s.to_string(), relname: r.to_string() }),
        None => Some(RangeVar { schemaname: String::new(), relname: name.to_string() }),
    }
}

fn con(kind: ConstraintKind) -> Constraint {
    Constraint {
        kind,
        name: String::new(),
        keys: vec![],
        index_name: String::new(),
        expr: None,
        stored: false,
        fk_columns: vec![],
        ref_table: None,
        ref_columns: vec![],
    }
}

fn keyed(kind: ConstraintKind, name: &str, keys: &[&str]) -> Constraint {
    let mut c = con(kind);
    c.name = name.to_string();
    c.keys = keys.iter().map(|k| k.to_string()).collect();
    c
}

fn default_of(e: ExprKind) -> Constraint {
    let mut c = con(ConstraintKind::Default);
    c.expr = Some(e);
    c
}

fn check_of(name: &str) -> Constraint {
    let mut c = con(ConstraintKind::Check);
    c.name = name.to_string();
    c.expr = Some(ExprKind::Operator);
    c
}

fn foreign(name: &str, cols: &[&str], table: &str, refs: &[&str]) -> Constraint {
    let mut c = con(ConstraintKind::Foreign);
    c.name = name.to_string();
    c.fk_columns = cols.iter().map(|k| k.to_string()).collect();
    c.ref_table = rel(table);
    c.ref_columns = refs.iter().map(|k| k.to_string()).collect();
    c
}

fn generated_stored(e: ExprKind) -> Constraint {
    let mut c = con(ConstraintKind::Generated);
    c.expr = Some(e);
    c.stored = true;
    c
}

fn col_c(name: &str, ty: &str, constraints: Vec<Constraint>) -> ColumnDef {
    ColumnDef {
        name: name.to_string(),
        type_names: vec!["pg_catalog".to_string(), ty.to_string()],
        type_mods: vec![],
        constraints,
    }
}

fn col(name: &str, ty: &str) -> ColumnDef {
    col_c(name, ty, vec![])
}

fn sized(name: &str, ty: &str, n: u64) -> ColumnDef {
    let mut c = col(name, ty);
    c.type_mods = vec![n];
    c
}

fn pk_col(name: &str, ty: &str) -> ColumnDef {
    col_c(name, ty, vec![con(ConstraintKind::Primary)])
}

fn add_col(c: ColumnDef) -> AlterTableCmd {
    AlterTableCmd { kind: AlterKind::AddColumn, name: String::new(), def: CmdDef::Column(c), if_exists: false }
}

fn add_con(c: Constraint) -> AlterTableCmd {
    AlterTableCmd { kind: AlterKind::AddConstraint, name: String::new(), def: CmdDef::Constraint(c), if_exists: false }
}

fn bare(kind: AlterKind, name: &str) -> AlterTableCmd {
    AlterTableCmd { kind, name: name.to_string(), def: CmdDef::Nothing, if_exists: false }
}

fn drop_col(name: &str, if_exists: bool) -> AlterTableCmd {
    AlterTableCmd { kind: AlterKind::DropColumn, name: name.to_string(), def: CmdDef::Nothing, if_exists }
}

fn alter_type(name: &str, ty: &str) -> AlterTableCmd {
    AlterTableCmd { kind: AlterKind::AlterColumnType, name: name.to_string(), def: CmdDef::Column(col("", ty)), if_exists: false }
}

fn alter(table: &str, cmds: Vec<AlterTableCmd>) -> Statement {
    Statement::AlterTable { relation: rel(table), cmds }
}

fn create(table: &str, cols: Vec<ColumnDef>, constraints: Vec<Constraint>) -> Statement {
    let mut elements: Vec<TableElement> = cols.into_iter().map(TableElement::Column).collect();
    elements.extend(constraints.into_iter().map(TableElement::Constraint));
    Statement::CreateTable { relation: rel(table), elements }
}

fn index(name: &str, table: &str, cols: &[&str], unique: bool, concurrent: bool) -> Statement {
    Statement::CreateIndex(IndexStmt {
        idxname: name.to_string(),
        relation: rel(table),
        params: cols.iter().map(|c| IndexElem { name: c.to_string() }).collect(),
        unique,
        concurrent,
        if_not_exists: false,
    })
}

fn drop(kind: ObjectKind, names: &[&str], if_exists: bool, cascade: bool, restrict: bool) -> Statement {
    Statement::Drop(DropStmt {
        kind,
        objects: names.iter().map(|n| n.split('.').map(|s| s.to_string()).collect()).collect(),
        if_exists,
        cascade,
        restrict,
        concurrent: false,
    })
}

fn reindex(kind: ReindexKind, target: &str, concurrently: bool) -> Statement {
    let on_relation = matches!(kind, ReindexKind::Index | ReindexKind::Table);
    Statement::Reindex(ReindexStmt {
        kind,
        relation: if on_relation { rel(target) } else { None },
        name: if on_relation { String::new() } else { target.to_string() },
        params: if concurrently { vec!["concurrently".to_string()] } else { vec![] },
    })
}

fn pg(version: u32) -> Config {
    Config { postgres_version: Some(version), ..Default::default() }
}

fn run_with(check: BuiltinCheck, sql: &str, stmt: Statement, config: &Config) -> Vec<Violation> {
    let registry = Registry { checks: vec![CheckEntry::Builtin(check)] };
    let stmts = vec![RawStatement { stmt: Some(stmt), location: 0 }];
    registry.check_stmts_with_context(&stmts, sql, &parse_ignore_ranges(sql), config)
}

fn run(check: BuiltinCheck, sql: &str, stmt: Statement) -> Vec<Violation> {
    run_with(check, sql, stmt, &Config::default())
}

fn detects(check: BuiltinCheck, sql: &str, stmt: Statement, operation: &str) {
    let violations = run(check, sql, stmt);
    assert_eq!(violations.len(), 1, "Expected exactly 1 violation");
    assert_eq!(violations[0].operation, operation);
}

fn allows(check: BuiltinCheck, sql: &str, stmt: Statement) {
    let violations = run(check, sql, stmt);
    assert_eq!(violations.len(), 0, "Expected no violations but found {}", violations.len());
}

fn serial_users() -> Statement {
    create("users", vec![pk_col("id", "serial")], vec![])
}

fn select() -> Statement {
    Statement::Other
}

#[test]
fn test_detects_add_column_with_default() {
    detects(
        BuiltinCheck::AddColumn,
        "ALTER TABLE users ADD COLUMN admin BOOLEAN DEFAULT FALSE;",
        alter("users", vec![add_col(col_c("admin", "bool", vec![default_of(ExprKind::Constant)]))]),
        "ADD COLUMN with DEFAULT",
    );
}

#[test]
fn test_allows_add_column_without_default() {
    allows(BuiltinCheck::AddColumn, "ALTER TABLE users ADD COLUMN admin BOOLEAN;", alter("users", vec![add_col(col("admin", "bool"))]));
}

#[test]
fn add_column_test_ignores_other_statements() {
    allows(BuiltinCheck::AddColumn, "CREATE TABLE users (id SERIAL PRIMARY KEY);", serial_users());
}

#[test]
fn test_allows_constant_default_on_pg11() {
    let sql = "ALTER TABLE users ADD COLUMN admin BOOLEAN DEFAULT FALSE;";
    let stmt = alter("users", vec![add_col(col_c("admin", "bool", vec![default_of(ExprKind::Constant)]))]);
    assert_eq!(run_with(BuiltinCheck::AddColumn, sql, stmt, &pg(11)).len(), 0);
}

#[test]
fn test_allows_constant_default_on_pg16() {
    let sql = "ALTER TABLE users ADD COLUMN status VARCHAR DEFAULT 'active';";
    let stmt = alter("users", vec![add_col(col_c("status", "varchar", vec![default_of(ExprKind::Constant)]))]);
    assert_eq!(run_with(BuiltinCheck::AddColumn, sql, stmt, &pg(16)).len(), 0);
}

#[test]
fn test_allows_integer_constant_default_on_pg11() {
    let sql = "ALTER TABLE users ADD COLUMN retries INT DEFAULT 0;";
    let stmt = alter("users", vec![add_col(col_c("retries", "int4", vec![default_of(ExprKind::Constant)]))]);
    assert_eq!(run_with(BuiltinCheck::AddColumn, sql, stmt, &pg(11)).len(), 0);
}

#[test]
fn test_detects_constant_default_on_pg10() {
    let sql = "ALTER TABLE users ADD COLUMN admin BOOLEAN DEFAULT FALSE;";
    let stmt = alter("users", vec![add_col(col_c("admin", "bool", vec![default_of(ExprKind::Constant)]))]);
    let violations = run_with(BuiltinCheck::AddColumn, sql, stmt, &pg(10));
    assert_eq!(violations.len(), 1);
    assert_eq!(violations[0].operation, "ADD COLUMN with DEFAULT");
}

#[test]
fn test_detects_volatile_default_on_pg11() {
    let sql = "ALTER TABLE users ADD COLUMN created_at TIMESTAMP DEFAULT now();";
    let stmt = alter("users", vec![add_col(col_c("created_at", "timestamp", vec![default_of(ExprKind::FunctionCall)]))]);
    let violations = run_with(BuiltinCheck::AddColumn, sql, stmt, &pg(11));
    assert_eq!(violations.len(), 1);
    assert_eq!(violations[0].operation, "ADD COLUMN with DEFAULT");
}

#[test]
fn test_detects_volatile_default_on_pg16() {
    let sql = "ALTER TABLE users ADD COLUMN id UUID DEFAULT gen_random_uuid();";
    let stmt = alter("users", vec![add_col(col_c("id", "uuid", vec![default_of(ExprKind::FunctionCall)]))]);
    let violations = run_with(BuiltinCheck::AddColumn, sql, stmt, &pg(16));
    assert_eq!(violations.len(), 1);
    assert_eq!(violations[0].operation, "ADD COLUMN with DEFAULT");
}

#[test]
fn test_detects_typecast_default_on_pg11() {
    let sql = "ALTER TABLE users ADD COLUMN status TEXT DEFAULT 'active'::text;";
    let stmt = alter("users", vec![add_col(col_c("status", "text", vec![default_of(ExprKind::TypeCast)]))]);
    let violations = run_with(BuiltinCheck::AddColumn, sql, stmt, &pg(11));
    assert_eq!(violations.len(), 1);
    assert_eq!(violations[0].operation, "ADD COLUMN with DEFAULT");
}

#[test]
fn test_detects_add_column_with_serial() {
    detects(
        BuiltinCheck::AddSerialColumn,
        "ALTER TABLE users ADD COLUMN id SERIAL;",
        alter("users", vec![add_col(col("id", "serial"))]),
        "ADD COLUMN with SERIAL",
    );
}

#[test]
fn test_detects_add_column_with_bigserial() {
    detects(
        BuiltinCheck::AddSerialColumn,
        "ALTER TABLE users ADD COLUMN id BIGSERIAL;",
        alter("users", vec![add_col(col("id", "bigserial"))]),
        "ADD COLUMN with SERIAL",
    );
}

#[test]
fn test_detects_add_column_with_smallserial() {
    detects(
        BuiltinCheck::AddSerialColumn,
        "ALTER TABLE users ADD COLUMN id SMALLSERIAL;",
        alter("users", vec![add_col(col("id", "smallserial"))]),
        "ADD COLUMN with SERIAL",
    );
}

#[test]
fn test_allows_add_column_with_integer() {
    allows(BuiltinCheck::AddSerialColumn, "ALTER TABLE users ADD COLUMN count INTEGER;", alter("users", vec![add_col(col("count", "int4"))]));
}

#[test]
fn test_allows_create_table_with_serial() {
    allows(BuiltinCheck::AddSerialColumn, "CREATE TABLE users (id SERIAL PRIMARY KEY);", serial_users());
}

#[test]
fn add_serial_column_test_ignores_other_statements() {
    allows(BuiltinCheck::AddSerialColumn, "CREATE INDEX idx_users_email ON users(email);", index("idx_users_email", "users", &["email"], false, false));
}

#[test]
fn test_detects_add_unique_constraint_named() {
    detects(
        BuiltinCheck::AddUniqueConstraint,
        "ALTER TABLE users ADD CONSTRAINT users_email_key UNIQUE (email);",
        alter("users", vec![add_con(keyed(ConstraintKind::Unique, "users_email_key", &["email"]))]),
        "ADD UNIQUE constraint",
    );
}

#[test]
fn test_detects_add_unique_constraint_unnamed() {
    detects(
        BuiltinCheck::AddUniqueConstraint,
        "ALTER TABLE users ADD UNIQUE (email);",
        alter("users", vec![add_con(keyed(ConstraintKind::Unique, "", &["email"]))]),
        "ADD UNIQUE constraint",
    );
}

#[test]
fn test_detects_add_unique_constraint_multiple_columns() {
    detects(
        BuiltinCheck::AddUniqueConstraint,
        "ALTER TABLE users ADD CONSTRAINT users_email_username_key UNIQUE (email, username);",
        alter("users", vec![add_con(keyed(ConstraintKind::Unique, "users_email_username_key", &["email", "username"]))]),
        "ADD UNIQUE constraint",
    );
}

#[test]
fn test_allows_unique_using_index() {
    let mut c = keyed(ConstraintKind::Unique, "users_email_key", &[]);
    c.index_name = "users_email_idx".to_string();
    allows(
        BuiltinCheck::AddUniqueConstraint,
        "ALTER TABLE users ADD CONSTRAINT users_email_key UNIQUE USING INDEX users_email_idx;",
        alter("users", vec![add_con(c)]),
    );
}

#[test]
fn test_ignores_create_unique_index() {
    allows(BuiltinCheck::AddUniqueConstraint, "CREATE UNIQUE INDEX idx_users_email ON users(email);", index("idx_users_email", "users", &["email"], true, false));
}

#[test]
fn test_ignores_create_unique_index_concurrently() {
    allows(BuiltinCheck::AddUniqueConstraint, "CREATE UNIQUE INDEX CONCURRENTLY idx_users_email ON users(email);", index("idx_users_email", "users", &["email"], true, true));
}

#[test]
fn test_ignores_other_constraints() {
    allows(BuiltinCheck::AddUniqueConstraint, "ALTER TABLE users ADD CONSTRAINT users_age_check CHECK (age >= 0);", alter("users", vec![add_con(check_of("users_age_check"))]));
}

#[test]
fn test_ignores_foreign_key_constraints() {
    allows(BuiltinCheck::AddUniqueConstraint, "ALTER TABLE posts ADD CONSTRAINT posts_user_id_fkey FOREIGN KEY (user_id) REFERENCES users(id);", alter("posts", vec![add_con(foreign("posts_user_id_fkey", &["user_id"], "users", &["id"]))]));
}

#[test]
fn add_unique_constraint_test_ignores_other_alter_operations() {
    allows(BuiltinCheck::AddUniqueConstraint, "ALTER TABLE users ADD COLUMN email TEXT;", alter("users", vec![add_col(col("email", "text"))]));
}

#[test]
fn add_unique_constraint_test_ignores_other_statements() {
    allows(BuiltinCheck::AddUniqueConstraint, "CREATE TABLE users (id SERIAL PRIMARY KEY);", serial_users());
}

#[test]
fn test_detects_alter_column_type() {
    detects(
        BuiltinCheck::AlterColumnType,
        "ALTER TABLE users ALTER COLUMN age TYPE BIGINT;",
        alter("users", vec![alter_type("age", "int8")]),
        "ALTER COLUMN TYPE",
    );
}

#[test]
fn test_detects_alter_column_type_with_using() {
    detects(
        BuiltinCheck::AlterColumnType,
        "ALTER TABLE users ALTER COLUMN data TYPE JSONB USING data::JSONB;",
        alter("users", vec![alter_type("data", "jsonb")]),
        "ALTER COLUMN TYPE",
    );
}

#[test]
fn test_detects_set_data_type_variant() {
    detects(
        BuiltinCheck::AlterColumnType,
        "ALTER TABLE users ALTER COLUMN email SET DATA TYPE VARCHAR(500);",
        alter("users", vec![alter_type("email", "varchar")]),
        "ALTER COLUMN TYPE",
    );
}

#[test]
fn test_ignores_other_alter_column_operations() {
    allows(BuiltinCheck::AlterColumnType, "ALTER TABLE users ALTER COLUMN email SET NOT NULL;", alter("users", vec![bare(AlterKind::SetNotNull, "email")]));
}

#[test]
fn alter_column_type_test_ignores_other_operations() {
    allows(BuiltinCheck::AlterColumnType, "ALTER TABLE users ADD COLUMN email VARCHAR(255);", alter("users", vec![add_col(sized("email", "varchar", 255))]));
}

#[test]
fn alter_column_type_test_ignores_other_statements() {
    allows(BuiltinCheck::AlterColumnType, "CREATE TABLE users (id SERIAL PRIMARY KEY);", serial_users());
}

#[test]
fn test_detects_char_column_alter_table() {
    detects(
        BuiltinCheck::CharType,
        "ALTER TABLE users ADD COLUMN country_code CHAR(2);",
        alter("users", vec![add_col(sized("country_code", "bpchar", 2))]),
        "ADD COLUMN with CHAR type",
    );
}

#[test]
fn test_detects_character_column_alter_table() {
    detects(
        BuiltinCheck::CharType,
        "ALTER TABLE users ADD COLUMN status CHARACTER(1);",
        alter("users", vec![add_col(sized("status", "bpchar", 1))]),
        "ADD COLUMN with CHAR type",
    );
}

#[test]
fn test_detects_char_column_create_table() {
    detects(
        BuiltinCheck::CharType,
        "CREATE TABLE users (id SERIAL PRIMARY KEY, country_code CHAR(2));",
        create("users", vec![pk_col("id", "serial"), sized("country_code", "bpchar", 2)], vec![]),
        "CREATE TABLE with CHAR column",
    );
}

#[test]
fn test_detects_char_with_explicit_length() {
    let stmt = alter("products", vec![add_col(sized("sku", "bpchar", 10))]);
    let violations = CharTypeCheck.check(&stmt, &Config::default());
    assert_eq!(violations.len(), 1);
    assert!(violations[0].problem.contains("CHAR(10)"));
}

#[test]
fn test_detects_char_without_explicit_length() {
    let stmt = alter("flags", vec![add_col(col("flag", "bpchar"))]);
    let violations = CharTypeCheck.check(&stmt, &Config::default());
    assert_eq!(violations.len(), 1);
    assert!(violations[0].problem.contains("CHAR(1)"));
}

#[test]
fn test_detects_multiple_char_columns() {
    let sql = "CREATE TABLE locations (id SERIAL PRIMARY KEY, country CHAR(2), region CHAR(3));";
    let stmt = create(
        "locations",
        vec![pk_col("id", "serial"), sized("country", "bpchar", 2), sized("region", "bpchar", 3)],
        vec![],
    );
    let violations = run(BuiltinCheck::CharType, sql, stmt);
    assert_eq!(violations.len(), 2);
    assert!(violations.iter().any(|v| v.problem.contains("country")));
    assert!(violations.iter().any(|v| v.problem.contains("region")));
}

#[test]
fn test_allows_varchar_column() {
    allows(BuiltinCheck::CharType, "ALTER TABLE users ADD COLUMN name VARCHAR(255);", alter("users", vec![add_col(sized("name", "varchar", 255))]));
}

#[test]
fn test_allows_text_column() {
    allows(BuiltinCheck::CharType, "ALTER TABLE users ADD COLUMN bio TEXT;", alter("users", vec![add_col(col("bio", "text"))]));
}

#[test]
fn char_type_test_allows_other_column_types() {
    allows(BuiltinCheck::CharType, "ALTER TABLE users ADD COLUMN age INT;", alter("users", vec![add_col(col("age", "int4"))]));
    allows(
        BuiltinCheck::CharType,
        "ALTER TABLE users ADD COLUMN active BOOLEAN;",
        alter("users", vec![add_col(col("active", "bool"))]),
    );
    allows(
        BuiltinCheck::CharType,
        "ALTER TABLE users ADD COLUMN created_at TIMESTAMP;",
        alter("users", vec![add_col(col("created_at", "timestamp"))]),
    );
}

#[test]
fn test_allows_create_table_without_char() {
    allows(BuiltinCheck::CharType, "CREATE TABLE users (id SERIAL PRIMARY KEY, name TEXT, email VARCHAR(255));", create("users", vec![pk_col("id", "serial"), col("name", "text"), sized("email", "varchar", 255)], vec![]));
}

#[test]
fn char_type_test_ignores_other_alter_operations() {
    allows(BuiltinCheck::CharType, "ALTER TABLE users DROP COLUMN old_field;", alter("users", vec![drop_col("old_field", false)]));
}

#[test]
fn char_type_test_ignores_other_statements() {
    allows(BuiltinCheck::CharType, "SELECT * FROM users;", select());
}

#[test]
fn test_detects_drop_column() {
    let check = DropColumnCheck;
    let stmt = alter("users", vec![drop_col("email", false)]);
    let violations = check.check(&stmt, &Config::default());
    assert_eq!(violations.len(), 1);
    assert_eq!(violations[0].operation, "DROP COLUMN");
}

#[test]
fn test_detects_drop_column_if_exists() {
    let check = DropColumnCheck;
    let stmt = alter("users", vec![drop_col("email", true)]);
    let violations = check.check(&stmt, &Config::default());
    assert_eq!(violations.len(), 1);
    assert_eq!(violations[0].operation, "DROP COLUMN");
}

#[test]
fn drop_column_test_ignores_other_operations() {
    allows(BuiltinCheck::DropColumn, "ALTER TABLE users ADD COLUMN email VARCHAR(255);", alter("users", vec![add_col(sized("email", "varchar", 255))]));
}

#[test]
fn drop_column_test_ignores_other_statements() {
    allows(BuiltinCheck::DropColumn, "CREATE TABLE users (id SERIAL PRIMARY KEY);", serial_users());
}

#[test]
fn test_detects_drop_database() {
    detects(
        BuiltinCheck::DropDatabase,
        "DROP DATABASE mydb;",
        drop(ObjectKind::Database, &["mydb"], false, false, false),
        "DROP DATABASE",
    );
}

#[test]
fn test_detects_drop_database_if_exists() {
    detects(
        BuiltinCheck::DropDatabase,
        "DROP DATABASE IF EXISTS mydb;",
        drop(ObjectKind::Database, &["mydb"], true, false, false),
        "DROP DATABASE",
    );
}

#[test]
fn test_detects_drop_multiple_databases() {
    let stmt = drop(ObjectKind::Database, &["db1", "db2"], false, false, false);
    let violations = run(BuiltinCheck::DropDatabase, "DROP DATABASE db1, db2;", stmt);
    assert_eq!(violations.len(), 2, "Should detect all 2 databases");
    assert!(violations.iter().all(|v| v.operation == "DROP DATABASE"));
}

#[test]
fn test_ignores_drop_table() {
    allows(BuiltinCheck::DropDatabase, "DROP TABLE users;", drop(ObjectKind::Table, &["users"], false, false, false));
}

#[test]
fn drop_database_test_ignores_drop_index() {
    allows(BuiltinCheck::DropDatabase, "DROP INDEX idx_users_email;", drop(ObjectKind::Index, &["idx_users_email"], false, false, false));
}

#[test]
fn test_ignores_create_database() {
    allows(BuiltinCheck::DropDatabase, "CREATE DATABASE mydb;", Statement::Other);
}

#[test]
fn test_detects_drop_index() {
    detects(
        BuiltinCheck::DropIndex,
        "DROP INDEX idx_users_email;",
        drop(ObjectKind::Index, &["idx_users_email"], false, false, false),
        "DROP INDEX without CONCURRENTLY",
    );
}

#[test]
fn test_detects_drop_index_if_exists() {
    detects(
        BuiltinCheck::DropIndex,
        "DROP INDEX IF EXISTS idx_users_email;",
        drop(ObjectKind::Index, &["idx_users_email"], true, false, false),
        "DROP INDEX without CONCURRENTLY",
    );
}

#[test]
fn test_detects_drop_index_cascade() {
    detects(
        BuiltinCheck::DropIndex,
        "DROP INDEX idx_users_email CASCADE;",
        drop(ObjectKind::Index, &["idx_users_email"], false, true, false),
        "DROP INDEX without CONCURRENTLY",
    );
}

#[test]
fn test_detects_drop_index_restrict() {
    detects(
        BuiltinCheck::DropIndex,
        "DROP INDEX idx_users_email RESTRICT;",
        drop(ObjectKind::Index, &["idx_users_email"], false, false, true),
        "DROP INDEX without CONCURRENTLY",
    );
}

#[test]
fn test_detects_drop_multiple_indexes() {
    let stmt = drop(ObjectKind::Index, &["idx1", "idx2", "idx3"], false, false, false);
    let violations = run(BuiltinCheck::DropIndex, "DROP INDEX idx1, idx2, idx3;", stmt);
    assert_eq!(violations.len(), 3, "Should detect all 3 indexes");
    assert!(violations.iter().all(|v| v.operation == "DROP INDEX without CONCURRENTLY"));
}

#[test]
fn test_detects_drop_index_if_exists_cascade() {
    detects(
        BuiltinCheck::DropIndex,
        "DROP INDEX IF EXISTS idx_users_email CASCADE;",
        drop(ObjectKind::Index, &["idx_users_email"], true, true, false),
        "DROP INDEX without CONCURRENTLY",
    );
}

#[test]
fn drop_index_test_ignores_other_drop_statements() {
    allows(BuiltinCheck::DropIndex, "DROP TABLE users;", drop(ObjectKind::Table, &["users"], false, false, false));
}

#[test]
fn drop_index_test_ignores_other_statements() {
    allows(BuiltinCheck::DropIndex, "CREATE INDEX idx_users_email ON users(email);", index("idx_users_email", "users", &["email"], false, false));
}

#[test]
fn test_detects_drop_table() {
    detects(
        BuiltinCheck::DropTable,
        "DROP TABLE users;",
        drop(ObjectKind::Table, &["users"], false, false, false),
        "DROP TABLE",
    );
}

#[test]
fn test_detects_drop_table_if_exists() {
    detects(
        BuiltinCheck::DropTable,
        "DROP TABLE IF EXISTS users;",
        drop(ObjectKind::Table, &["users"], true, false, false),
        "DROP TABLE",
    );
}

#[test]
fn test_detects_drop_table_cascade() {
    detects(
        BuiltinCheck::DropTable,
        "DROP TABLE users CASCADE;",
        drop(ObjectKind::Table, &["users"], false, true, false),
        "DROP TABLE",
    );
}

#[test]
fn test_detects_drop_table_restrict() {
    detects(
        BuiltinCheck::DropTable,
        "DROP TABLE users RESTRICT;",
        drop(ObjectKind::Table, &["users"], false, false, true),
        "DROP TABLE",
    );
}

#[test]
fn test_detects_drop_multiple_tables() {
    let stmt = drop(ObjectKind::Table, &["users", "orders", "products"], false, false, false);
    let violations = run(BuiltinCheck::DropTable, "DROP TABLE users, orders, products;", stmt);
    assert_eq!(violations.len(), 3, "Should detect all 3 tables");
    assert!(violations.iter().all(|v| v.operation == "DROP TABLE"));
}

#[test]
fn drop_table_test_ignores_drop_index() {
    allows(BuiltinCheck::DropTable, "DROP INDEX idx_users_email;", drop(ObjectKind::Index, &["idx_users_email"], false, false, false));
}

#[test]
fn test_ignores_truncate() {
    let stmt = Statement::Truncate { relations: vec![rel("users").unwrap()], cascade: false };
    allows(BuiltinCheck::DropTable, "TRUNCATE TABLE users;", stmt);
}

#[test]
fn drop_table_test_ignores_create_table() {
    allows(BuiltinCheck::DropTable, "CREATE TABLE users (id SERIAL PRIMARY KEY);", serial_users());
}

#[test]
fn test_ignores_alter_table() {
    allows(BuiltinCheck::DropTable, "ALTER TABLE users ADD COLUMN email VARCHAR(255);", alter("users", vec![add_col(sized("email", "varchar", 255))]));
}

#[test]
fn test_detects_add_column_generated_stored() {
    detects(
        BuiltinCheck::GeneratedColumn,
        "ALTER TABLE products ADD COLUMN total_price INTEGER GENERATED ALWAYS AS (price * quantity) STORED;",
        alter("products", vec![add_col(col_c("total_price", "int4", vec![generated_stored(ExprKind::Operator)]))]),
        "ADD COLUMN with GENERATED STORED",
    );
}

#[test]
fn test_detects_add_column_generated_stored_with_string_expression() {
    detects(
        BuiltinCheck::GeneratedColumn,
        "ALTER TABLE users ADD COLUMN full_name TEXT GENERATED ALWAYS AS (first_name || ' ' || last_name) STORED;",
        alter("users", vec![add_col(col_c("full_name", "text", vec![generated_stored(ExprKind::Operator)]))]),
        "ADD COLUMN with GENERATED STORED",
    );
}

#[test]
fn test_ignores_safe_variant_regular_column() {
    allows(BuiltinCheck::GeneratedColumn, "ALTER TABLE users ADD COLUMN email TEXT;", alter("users", vec![add_col(col("email", "text"))]));
}

#[test]
fn test_ignores_safe_variant_column_with_default() {
    allows(BuiltinCheck::GeneratedColumn, "ALTER TABLE users ADD COLUMN status TEXT DEFAULT 'active';", alter("users", vec![add_col(col_c("status", "text", vec![default_of(ExprKind::Constant)]))]));
}

#[test]
fn test_ignores_safe_variant_identity_column() {
    allows(BuiltinCheck::GeneratedColumn, "ALTER TABLE users ADD COLUMN id INTEGER GENERATED ALWAYS AS IDENTITY;", alter("users", vec![add_col(col_c("id", "int4", vec![con(ConstraintKind::Identity)]))]));
}

#[test]
fn generated_column_test_ignores_create_table() {
    let sql = "CREATE TABLE products (id SERIAL PRIMARY KEY, price INTEGER, quantity INTEGER, total_price INTEGER GENERATED ALWAYS AS (price * quantity) STORED);";
    let stmt = create(
        "products",
        vec![
            pk_col("id", "serial"),
            col("price", "int4"),
            col("quantity", "int4"),
            col_c("total_price", "int4", vec![generated_stored(ExprKind::Operator)]),
        ],
        vec![],
    );
    allows(BuiltinCheck::GeneratedColumn, sql, stmt);
}

#[test]
fn generated_column_test_ignores_other_alter_operations() {
    allows(BuiltinCheck::GeneratedColumn, "ALTER TABLE users DROP COLUMN email;", alter("users", vec![drop_col("email", false)]));
}

#[test]
fn generated_column_test_ignores_other_statements() {
    allows(BuiltinCheck::GeneratedColumn, "SELECT * FROM users;", select());
}

#[test]
fn test_registry_creation() {
    let registry = Registry::new();
    assert_eq!(registry.checks.len(), Registry::builtin_check_names().len());
}

#[test]
fn test_registry_includes_all_checks_when_no_version_set() {
    let registry = Registry::new();
    assert!(registry.active_check_names().contains(&"AddColumnCheck".to_string()));
    assert_eq!(registry.checks.len(), Registry::builtin_check_names().len());
}

#[test]
fn test_registry_with_disabled_checks() {
    let config = Config { disable_checks: vec!["AddColumnCheck".to_string()], ..Default::default() };
    let registry = Registry::with_config(&config);
    assert_eq!(registry.checks.len(), Registry::builtin_check_names().len() - 1);
}

#[test]
fn test_registry_with_multiple_disabled_checks() {
    let config = Config {
        disable_checks: vec!["AddColumnCheck".to_string(), "DropColumnCheck".to_string()],
        ..Default::default()
    };
    let registry = Registry::with_config(&config);
    assert_eq!(registry.checks.len(), Registry::builtin_check_names().len() - 2);
}

#[test]
fn test_registry_with_all_checks_disabled() {
    let config = Config {
        disable_checks: Registry::builtin_check_names().iter().map(|s| s.to_string()).collect(),
        ..Default::default()
    };
    let registry = Registry::with_config(&config);
    assert_eq!(registry.checks.len(), 0);
}

#[test]
fn test_byte_offset_to_line() {
    let sql = "line1\nline2\nline3";
    assert_eq!(byte_offset_to_line(sql, 0), 1);
    assert_eq!(byte_offset_to_line(sql, 5), 1);
    assert_eq!(byte_offset_to_line(sql, 6), 2);
    assert_eq!(byte_offset_to_line(sql, 12), 3);
}

#[test]
fn reindex_test_detects_reindex_index() {
    detects(
        BuiltinCheck::Reindex,
        "REINDEX INDEX idx_users_email;",
        reindex(ReindexKind::Index, "idx_users_email", false),
        "REINDEX without CONCURRENTLY",
    );
}

#[test]
fn reindex_test_detects_reindex_table() {
    detects(
        BuiltinCheck::Reindex,
        "REINDEX TABLE users;",
        reindex(ReindexKind::Table, "users", false),
        "REINDEX without CONCURRENTLY",
    );
}

#[test]
fn reindex_test_detects_reindex_schema() {
    detects(
        BuiltinCheck::Reindex,
        "REINDEX SCHEMA public;",
        reindex(ReindexKind::Schema, "public", false),
        "REINDEX without CONCURRENTLY",
    );
}

#[test]
fn reindex_test_detects_reindex_database() {
    detects(
        BuiltinCheck::Reindex,
        "REINDEX DATABASE mydb;",
        reindex(ReindexKind::Database, "mydb", false),
        "REINDEX without CONCURRENTLY",
    );
}

#[test]
fn test_allows_reindex_index_concurrently() {
    allows(BuiltinCheck::Reindex, "REINDEX INDEX CONCURRENTLY idx_users_email;", reindex(ReindexKind::Index, "idx_users_email", true));
}

#[test]
fn test_allows_reindex_table_concurrently() {
    allows(BuiltinCheck::Reindex, "REINDEX TABLE CONCURRENTLY users;", reindex(ReindexKind::Table, "users", true));
}

#[test]
fn test_reindex_violation_contains_target_name() {
    let stmt = reindex(ReindexKind::Index, "idx_users_email", false);
    let violations = ReindexCheck.check(&stmt, &Config::default());
    assert_eq!(violations.len(), 1);
    assert!(violations[0].problem.contains("idx_users_email"));
    assert!(violations[0].problem.contains("INDEX"));
}

#[test]
fn test_reindex_table_violation_contains_table_name() {
    let stmt = reindex(ReindexKind::Table, "users", false);
    let violations = ReindexCheck.check(&stmt, &Config::default());
    assert_eq!(violations.len(), 1);
    assert!(violations[0].problem.contains("users"));
    assert!(violations[0].problem.contains("TABLE"));
}

#[test]
fn reindex_test_ignores_other_statements() {
    allows(
        BuiltinCheck::Reindex,
        "CREATE INDEX idx_test ON users(email);",
        index("idx_test", "users", &["email"], false, false),
    );
    allows(BuiltinCheck::Reindex, "DROP INDEX idx_test;", drop(ObjectKind::Index, &["idx_test"], false, false, false));
    allows(
        BuiltinCheck::Reindex,
        "ALTER TABLE users ADD COLUMN email TEXT;",
        alter("users", vec![add_col(col("email", "text"))]),
    );
}

#[test]
fn reindex_test_ignores_system() {
    allows(BuiltinCheck::Reindex, "REINDEX SYSTEM mydb;", reindex(ReindexKind::System, "mydb", false));
}

#[test]
fn test_detects_create_table_int_primary_key() {
    detects(
        BuiltinCheck::ShortIntegerPrimaryKey,
        "CREATE TABLE users (id INT PRIMARY KEY);",
        create("users", vec![pk_col("id", "int4")], vec![]),
        "PRIMARY KEY with short integer type",
    );
}

#[test]
fn test_detects_create_table_integer_primary_key() {
    detects(
        BuiltinCheck::ShortIntegerPrimaryKey,
        "CREATE TABLE users (id INTEGER PRIMARY KEY);",
        create("users", vec![pk_col("id", "int4")], vec![]),
        "PRIMARY KEY with short integer type",
    );
}

#[test]
fn test_detects_create_table_smallint_primary_key() {
    detects(
        BuiltinCheck::ShortIntegerPrimaryKey,
        "CREATE TABLE users (id SMALLINT PRIMARY KEY);",
        create("users", vec![pk_col("id", "int2")], vec![]),
        "PRIMARY KEY with short integer type",
    );
}

#[test]
fn test_detects_create_table_int2_primary_key() {
    detects(
        BuiltinCheck::ShortIntegerPrimaryKey,
        "CREATE TABLE users (id INT2 PRIMARY KEY);",
        create("users", vec![pk_col("id", "int2")], vec![]),
        "PRIMARY KEY with short integer type",
    );
}

#[test]
fn test_detects_create_table_int4_primary_key() {
    detects(
        BuiltinCheck::ShortIntegerPrimaryKey,
        "CREATE TABLE users (id INT4 PRIMARY KEY);",
        create("users", vec![pk_col("id", "int4")], vec![]),
        "PRIMARY KEY with short integer type",
    );
}

#[test]
fn test_detects_create_table_separate_pk_constraint() {
    detects(
        BuiltinCheck::ShortIntegerPrimaryKey,
        "CREATE TABLE users (id INT, name TEXT, PRIMARY KEY (id));",
        create("users", vec![col("id", "int4"), col("name", "text")], vec![keyed(ConstraintKind::Primary, "", &["id"])]),
        "PRIMARY KEY with short integer type",
    );
}

#[test]
fn test_detects_composite_primary_key_with_int() {
    let sql = "CREATE TABLE events (tenant_id BIGINT, id INT, PRIMARY KEY (tenant_id, id));";
    let stmt = create(
        "events",
        vec![col("tenant_id", "int8"), col("id", "int4")],
        vec![keyed(ConstraintKind::Primary, "", &["tenant_id", "id"])],
    );
    let violations = run(BuiltinCheck::ShortIntegerPrimaryKey, sql, stmt);
    assert_eq!(violations.len(), 1);
    assert_eq!(violations[0].operation, "PRIMARY KEY with short integer type");
    assert!(violations[0].problem.contains("id"));
    assert!(violations[0].problem.contains("INT"));
}

#[test]
fn test_detects_multiple_short_int_columns_in_composite_pk() {
    let sql = "CREATE TABLE data (tenant_id INT, user_id SMALLINT, PRIMARY KEY (tenant_id, user_id));";
    let stmt = create(
        "data",
        vec![col("tenant_id", "int4"), col("user_id", "int2")],
        vec![keyed(ConstraintKind::Primary, "", &["tenant_id", "user_id"])],
    );
    let violations = run(BuiltinCheck::ShortIntegerPrimaryKey, sql, stmt);
    assert_eq!(violations.len(), 2);
    assert!(violations.iter().any(|v| v.problem.contains("tenant_id")));
    assert!(violations.iter().any(|v| v.problem.contains("user_id")));
}

#[test]
fn test_detects_alter_add_column_int_primary_key() {
    detects(
        BuiltinCheck::ShortIntegerPrimaryKey,
        "ALTER TABLE users ADD COLUMN id INT PRIMARY KEY;",
        alter("users", vec![add_col(pk_col("id", "int4"))]),
        "PRIMARY KEY with short integer type",
    );
}

#[test]
fn test_detects_alter_add_column_smallint_primary_key() {
    detects(
        BuiltinCheck::ShortIntegerPrimaryKey,
        "ALTER TABLE users ADD COLUMN id SMALLINT PRIMARY KEY;",
        alter("users", vec![add_col(pk_col("id", "int2"))]),
        "PRIMARY KEY with short integer type",
    );
}

#[test]
fn test_detects_serial_primary_key() {
    detects(
        BuiltinCheck::ShortIntegerPrimaryKey,
        "CREATE TABLE users (id SERIAL PRIMARY KEY);",
        serial_users(),
        "PRIMARY KEY with short integer type",
    );
}

#[test]
fn test_allows_bigint_primary_key() {
    allows(BuiltinCheck::ShortIntegerPrimaryKey, "CREATE TABLE users (id BIGINT PRIMARY KEY);", create("users", vec![pk_col("id", "int8")], vec![]));
}

#[test]
fn test_allows_int8_primary_key() {
    allows(BuiltinCheck::ShortIntegerPrimaryKey, "CREATE TABLE users (id INT8 PRIMARY KEY);", create("users", vec![pk_col("id", "int8")], vec![]));
}

#[test]
fn test_allows_bigserial_primary_key() {
    allows(BuiltinCheck::ShortIntegerPrimaryKey, "CREATE TABLE users (id BIGSERIAL PRIMARY KEY);", create("users", vec![pk_col("id", "bigserial")], vec![]));
}

#[test]
fn test_allows_uuid_primary_key() {
    allows(BuiltinCheck::ShortIntegerPrimaryKey, "CREATE TABLE users (id UUID PRIMARY KEY);", create("users", vec![pk_col("id", "uuid")], vec![]));
}

#[test]
fn test_allows_int_column_without_primary_key() {
    allows(BuiltinCheck::ShortIntegerPrimaryKey, "CREATE TABLE users (id BIGINT PRIMARY KEY, age INT);", create("users", vec![pk_col("id", "int8"), col("age", "int4")], vec![]));
}

#[test]
fn test_allows_int_unique_not_primary() {
    allows(BuiltinCheck::ShortIntegerPrimaryKey, "CREATE TABLE users (id BIGINT PRIMARY KEY, code INT UNIQUE);", create("users", vec![pk_col("id", "int8"), col_c("code", "int4", vec![con(ConstraintKind::Unique)])], vec![]));
}

#[test]
fn test_allows_composite_pk_all_bigint() {
    allows(BuiltinCheck::ShortIntegerPrimaryKey, "CREATE TABLE events (tenant_id BIGINT, id BIGINT, PRIMARY KEY (tenant_id, id));", create("events", vec![col("tenant_id", "int8"), col("id", "int8")], vec![keyed(ConstraintKind::Primary, "", &["tenant_id", "id"])]));
}

#[test]
fn short_int_primary_key_test_ignores_other_statements() {
    allows(BuiltinCheck::ShortIntegerPrimaryKey, "ALTER TABLE users DROP COLUMN age;", alter("users", vec![drop_col("age", false)]));
}

#[test]
fn test_ignores_alter_add_column_without_pk() {
    allows(BuiltinCheck::ShortIntegerPrimaryKey, "ALTER TABLE users ADD COLUMN age INT;", alter("users", vec![add_col(col("age", "int4"))]));
}

#[test]
fn test_detects_alter_add_constraint_primary_key() {
    detects(
        BuiltinCheck::ShortIntegerPrimaryKey,
        "ALTER TABLE users ADD COLUMN id INT, ADD CONSTRAINT pk_users PRIMARY KEY (id);",
        alter("users", vec![add_col(col("id", "int4")), add_con(keyed(ConstraintKind::Primary, "pk_users", &["id"]))]),
        "PRIMARY KEY with short integer type",
    );
}

#[test]
fn test_detects_alter_add_constraint_smallint_pk() {
    detects(
        BuiltinCheck::ShortIntegerPrimaryKey,
        "ALTER TABLE users ADD COLUMN id SMALLINT, ADD CONSTRAINT pk_users PRIMARY KEY (id);",
        alter("users", vec![add_col(col("id", "int2")), add_con(keyed(ConstraintKind::Primary, "pk_users", &["id"]))]),
        "PRIMARY KEY with short integer type",
    );
}

#[test]
fn test_detects_alter_add_constraint_composite_pk_with_int() {
    let sql = "ALTER TABLE events ADD COLUMN tenant_id BIGINT, ADD COLUMN id INT, ADD CONSTRAINT pk_events PRIMARY KEY (tenant_id, id);";
    let stmt = alter(
        "events",
        vec![
            add_col(col("tenant_id", "int8")),
            add_col(col("id", "int4")),
            add_con(keyed(ConstraintKind::Primary, "pk_events", &["tenant_id", "id"])),
        ],
    );
    let violations = run(BuiltinCheck::ShortIntegerPrimaryKey, sql, stmt);
    assert_eq!(violations.len(), 1);
    assert_eq!(violations[0].operation, "PRIMARY KEY with short integer type");
    assert!(violations[0].problem.contains("id"));
    assert!(violations[0].problem.contains("INT"));
}

#[test]
fn test_allows_alter_add_constraint_bigint_pk() {
    allows(BuiltinCheck::ShortIntegerPrimaryKey, "ALTER TABLE users ADD COLUMN id BIGINT, ADD CONSTRAINT pk_users PRIMARY KEY (id);", alter("users", vec![add_col(col("id", "int8")), add_con(keyed(ConstraintKind::Primary, "pk_users", &["id"]))]));
}

#[test]
fn test_ignores_alter_add_constraint_on_existing_column() {
    allows(BuiltinCheck::ShortIntegerPrimaryKey, "ALTER TABLE users ADD CONSTRAINT pk_users PRIMARY KEY (id);", alter("users", vec![add_con(keyed(ConstraintKind::Primary, "pk_users", &["id"]))]));
}

#[test]
fn test_smallint_shows_correct_limit() {
    let stmt = create("users", vec![pk_col("id", "int2")], vec![]);
    let violations = run(BuiltinCheck::ShortIntegerPrimaryKey, "CREATE TABLE users (id SMALLINT PRIMARY KEY);", stmt);
    assert_eq!(violations.len(), 1);
    assert_eq!(violations[0].operation, "PRIMARY KEY with short integer type");
    assert!(violations[0].problem.contains("~32,767"));
}

#[test]
fn test_int_shows_correct_limit() {
    let stmt = create("users", vec![pk_col("id", "int4")], vec![]);
    let violations = run(BuiltinCheck::ShortIntegerPrimaryKey, "CREATE TABLE users (id INT PRIMARY KEY);", stmt);
    assert_eq!(violations.len(), 1);
    assert_eq!(violations[0].operation, "PRIMARY KEY with short integer type");
    assert!(violations[0].problem.contains("~2.1 billion"));
}

#[test]
fn test_detects_timestamp_column_alter_table() {
    detects(
        BuiltinCheck::TimestampType,
        "ALTER TABLE events ADD COLUMN created_at TIMESTAMP;",
        alter("events", vec![add_col(col("created_at", "timestamp"))]),
        "ADD COLUMN with TIMESTAMP",
    );
}

#[test]
fn test_detects_timestamp_without_time_zone_alter_table() {
    detects(
        BuiltinCheck::TimestampType,
        "ALTER TABLE events ADD COLUMN updated_at TIMESTAMP WITHOUT TIME ZONE;",
        alter("events", vec![add_col(col("updated_at", "timestamp"))]),
        "ADD COLUMN with TIMESTAMP",
    );
}

#[test]
fn test_detects_timestamp_column_create_table() {
    detects(
        BuiltinCheck::TimestampType,
        "CREATE TABLE events (id SERIAL PRIMARY KEY, created_at TIMESTAMP);",
        create("events", vec![pk_col("id", "serial"), col("created_at", "timestamp")], vec![]),
        "CREATE TABLE with TIMESTAMP",
    );
}

#[test]
fn test_detects_timestamp_without_time_zone_create_table() {
    detects(
        BuiltinCheck::TimestampType,
        "CREATE TABLE events (id SERIAL PRIMARY KEY, created_at TIMESTAMP WITHOUT TIME ZONE);",
        create("events", vec![pk_col("id", "serial"), col("created_at", "timestamp")], vec![]),
        "CREATE TABLE with TIMESTAMP",
    );
}

#[test]
fn test_detects_multiple_timestamp_columns() {
    let sql = "CREATE TABLE events (id SERIAL PRIMARY KEY, created_at TIMESTAMP, updated_at TIMESTAMP);";
    let stmt = create(
        "events",
        vec![pk_col("id", "serial"), col("created_at", "timestamp"), col("updated_at", "timestamp")],
        vec![],
    );
    let violations = run(BuiltinCheck::TimestampType, sql, stmt);
    assert_eq!(violations.len(), 2);
    assert!(violations.iter().any(|v| v.problem.contains("created_at")));
    assert!(violations.iter().any(|v| v.problem.contains("updated_at")));
}

#[test]
fn test_allows_timestamptz_column() {
    allows(BuiltinCheck::TimestampType, "ALTER TABLE events ADD COLUMN created_at TIMESTAMPTZ;", alter("events", vec![add_col(col("created_at", "timestamptz"))]));
}

#[test]
fn test_allows_timestamp_with_time_zone_column() {
    allows(BuiltinCheck::TimestampType, "ALTER TABLE events ADD COLUMN created_at TIMESTAMP WITH TIME ZONE;", alter("events", vec![add_col(col("created_at", "timestamptz"))]));
}

#[test]
fn test_allows_timestamptz_create_table() {
    allows(BuiltinCheck::TimestampType, "CREATE TABLE events (id SERIAL PRIMARY KEY, created_at TIMESTAMPTZ);", create("events", vec![pk_col("id", "serial"), col("created_at", "timestamptz")], vec![]));
}

#[test]
fn test_allows_timestamp_with_time_zone_create_table() {
    allows(BuiltinCheck::TimestampType, "CREATE TABLE events (id SERIAL PRIMARY KEY, created_at TIMESTAMP WITH TIME ZONE);", create("events", vec![pk_col("id", "serial"), col("created_at", "timestamptz")], vec![]));
}

#[test]
fn timestamp_type_test_allows_other_column_types() {
    allows(BuiltinCheck::TimestampType, "ALTER TABLE users ADD COLUMN age INT;", alter("users", vec![add_col(col("age", "int4"))]));
    allows(
        BuiltinCheck::TimestampType,
        "ALTER TABLE users ADD COLUMN active BOOLEAN;",
        alter("users", vec![add_col(col("active", "bool"))]),
    );
    allows(BuiltinCheck::TimestampType, "ALTER TABLE users ADD COLUMN name TEXT;", alter("users", vec![add_col(col("name", "text"))]));
    allows(
        BuiltinCheck::TimestampType,
        "ALTER TABLE users ADD COLUMN birth_date DATE;",
        alter("users", vec![add_col(col("birth_date", "date"))]),
    );
}

#[test]
fn test_allows_create_table_without_timestamp() {
    allows(BuiltinCheck::TimestampType, "CREATE TABLE users (id SERIAL PRIMARY KEY, name TEXT, email VARCHAR(255));", create("users", vec![pk_col("id", "serial"), col("name", "text"), sized("email", "varchar", 255)], vec![]));
}

#[test]
fn timestamp_type_test_ignores_other_alter_operations() {
    allows(BuiltinCheck::TimestampType, "ALTER TABLE users DROP COLUMN old_field;", alter("users", vec![drop_col("old_field", false)]));
}

#[test]
fn timestamp_type_test_ignores_other_statements() {
    allows(BuiltinCheck::TimestampType, "SELECT * FROM users;", select());
}

#[test]
fn test_detects_unnamed_unique_constraint() {
    detects(
        BuiltinCheck::UnnamedConstraint,
        "ALTER TABLE users ADD UNIQUE (email);",
        alter("users", vec![add_con(keyed(ConstraintKind::Unique, "", &["email"]))]),
        "CONSTRAINT without name",
    );
}

#[test]
fn test_detects_unnamed_foreign_key_constraint() {
    detects(
        BuiltinCheck::UnnamedConstraint,
        "ALTER TABLE posts ADD FOREIGN KEY (user_id) REFERENCES users(id);",
        alter("posts", vec![add_con(foreign("", &["user_id"], "users", &["id"]))]),
        "CONSTRAINT without name",
    );
}

#[test]
fn test_detects_unnamed_check_constraint() {
    detects(
        BuiltinCheck::UnnamedConstraint,
        "ALTER TABLE users ADD CHECK (age >= 0);",
        alter("users", vec![add_con(check_of(""))]),
        "CONSTRAINT without name",
    );
}

#[test]
fn test_allows_named_unique_constraint() {
    allows(BuiltinCheck::UnnamedConstraint, "ALTER TABLE users ADD CONSTRAINT users_email_key UNIQUE (email);", alter("users", vec![add_con(keyed(ConstraintKind::Unique, "users_email_key", &["email"]))]));
}

#[test]
fn test_allows_named_foreign_key_constraint() {
    allows(BuiltinCheck::UnnamedConstraint, "ALTER TABLE posts ADD CONSTRAINT posts_user_id_fkey FOREIGN KEY (user_id) REFERENCES users(id);", alter("posts", vec![add_con(foreign("posts_user_id_fkey", &["user_id"], "users", &["id"]))]));
}

#[test]
fn test_allows_named_check_constraint() {
    allows(BuiltinCheck::UnnamedConstraint, "ALTER TABLE users ADD CONSTRAINT users_age_check CHECK (age >= 0);", alter("users", vec![add_con(check_of("users_age_check"))]));
}

#[test]
fn unnamed_constraint_test_ignores_other_alter_operations() {
    allows(BuiltinCheck::UnnamedConstraint, "ALTER TABLE users ADD COLUMN email TEXT;", alter("users", vec![add_col(col("email", "text"))]));
}

#[test]
fn unnamed_constraint_test_ignores_other_statements() {
    allows(BuiltinCheck::UnnamedConstraint, "CREATE TABLE users (id SERIAL PRIMARY KEY);", serial_users());
}

#[test]
fn test_detects_index_with_four_columns() {
    detects(
        BuiltinCheck::WideIndex,
        "CREATE INDEX idx_users_composite ON users(a, b, c, d);",
        index("idx_users_composite", "users", &["a", "b", "c", "d"], false, false),
        "CREATE INDEX with too many columns",
    );
}

#[test]
fn test_detects_index_with_five_columns() {
    detects(
        BuiltinCheck::WideIndex,
        "CREATE INDEX idx_users_composite ON users(a, b, c, d, e);",
        index("idx_users_composite", "users", &["a", "b", "c", "d", "e"], false, false),
        "CREATE INDEX with too many columns",
    );
}

#[test]
fn test_detects_unique_index_with_four_columns() {
    detects(
        BuiltinCheck::WideIndex,
        "CREATE UNIQUE INDEX idx_users_composite ON users(tenant_id, user_id, email, status);",
        index("idx_users_composite", "users", &["tenant_id", "user_id", "email", "status"], true, false),
        "CREATE INDEX with too many columns",
    );
}

#[test]
fn test_allows_index_with_one_column() {
    allows(BuiltinCheck::WideIndex, "CREATE INDEX idx_users_email ON users(email);", index("idx_users_email", "users", &["email"], false, false));
}

#[test]
fn test_allows_index_with_two_columns() {
    allows(BuiltinCheck::WideIndex, "CREATE INDEX idx_users_composite ON users(tenant_id, user_id);", index("idx_users_composite", "users", &["tenant_id", "user_id"], false, false));
}

#[test]
fn test_allows_index_with_three_columns() {
    allows(BuiltinCheck::WideIndex, "CREATE INDEX idx_users_composite ON users(email, name, status);", index("idx_users_composite", "users", &["email", "name", "status"], false, false));
}

#[test]
fn wide_index_test_ignores_other_statements() {
    allows(BuiltinCheck::WideIndex, "CREATE TABLE users (id SERIAL PRIMARY KEY);", serial_users());
}

#[test]
fn add_primary_key_in_place() {
    detects(
        BuiltinCheck::AddPrimaryKey,
        "ALTER TABLE users ADD PRIMARY KEY (id);",
        alter("users", vec![add_con(keyed(ConstraintKind::Primary, "", &["id"]))]),
        "ADD PRIMARY KEY",
    );
    let mut c = keyed(ConstraintKind::Primary, "users_pkey", &[]);
    c.index_name = "users_id_idx".to_string();
    allows(
        BuiltinCheck::AddPrimaryKey,
        "ALTER TABLE users ADD CONSTRAINT users_pkey PRIMARY KEY USING INDEX users_id_idx;",
        alter("users", vec![add_con(c)]),
    );
    allows(BuiltinCheck::AddPrimaryKey, "CREATE TABLE users (id SERIAL PRIMARY KEY);", serial_users());
}

#[test]
fn truncate_of_two_tables() {
    let stmt = Statement::Truncate { relations: vec![rel("a").unwrap(), rel("public.b").unwrap()], cascade: false };
    let violations = run(BuiltinCheck::TruncateTable, "TRUNCATE a, public.b;", stmt);
    assert_eq!(violations.len(), 2);
    assert!(violations.iter().all(|v| v.operation == "TRUNCATE TABLE"));
    assert!(violations[1].problem.contains("'public.b'"));
    allows(BuiltinCheck::TruncateTable, "DROP TABLE users;", drop(ObjectKind::Table, &["users"], false, false, false));
}
