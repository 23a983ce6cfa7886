use diesel_guard::checks::{AddColumnCheck, Check, DropTableCheck, WideIndexCheck};
use diesel_guard::config::Config;
use diesel_guard::ignore::{
    first_token_at_or_after, is_line_ignored, non_comment_positions, parse_ignore_ranges,
    IgnoreRange,
};
use diesel_guard::registry::{CheckEntry, Registry};
use diesel_guard::scripting::{
    outcome_violations, parse_script_result, script_file_names, script_stems, ScriptField,
    ScriptItem, ScriptOutcome, ScriptValue,
};
use diesel_guard::tree::{
    AlterKind, AlterTableCmd, CmdDef, ColumnDef, Constraint, ConstraintKind, DropStmt, ExprKind,
    IndexElem, IndexStmt, ObjectKind, RangeVar, RawStatement, Statement,
};
use diesel_guard::violation::Violation;

fn rel(name: &str) -> Option<RangeVar> {
    Some(RangeVar { schemaname: String::new(), relname: name.to_string() })
}

fn default_of(e: ExprKind) -> Constraint {
    Constraint {
        kind: ConstraintKind::Default,
        name: String::new(),
        keys: vec![],
        index_name: String::new(),
        expr: Some(e),
        stored: false,
        fk_columns: vec![],
        ref_table: None,
        ref_columns: vec![],
    }
}

fn add_column(table: &str, name: &str, ty: &str, constraints: Vec<Constraint>) -> Statement {
    let col = ColumnDef {
        name: name.to_string(),
        type_names: vec!["pg_catalog".to_string(), ty.to_string()],
        type_mods: vec![],
        constraints,
    };
    Statement::AlterTable {
        relation: rel(table),
        cmds: vec![AlterTableCmd { kind: AlterKind::AddColumn, name: String::new(), def: CmdDef::Column(col), if_exists: false }],
    }
}

fn drop_column(table: &str, name: &str) -> Statement {
    Statement::AlterTable {
        relation: rel(table),
        cmds: vec![AlterTableCmd { kind: AlterKind::DropColumn, name: name.to_string(), def: CmdDef::Nothing, if_exists: false }],
    }
}

fn create_index(name: &str, table: &str, cols: &[&str], concurrent: bool) -> Statement {
    Statement::CreateIndex(IndexStmt {
        idxname: name.to_string(),
        relation: rel(table),
        params: cols.iter().map(|c| IndexElem { name: c.to_string() }).collect(),
        unique: false,
        concurrent,
        if_not_exists: false,
    })
}

fn one(stmt: Statement) -> Vec<RawStatement> {
    vec![RawStatement { stmt: Some(stmt), location: 0 }]
}

fn lint(registry: &Registry, sql: &str, stmts: &[RawStatement], config: &Config) -> Vec<Violation> {
    let ranges = parse_ignore_ranges(sql);
    registry.check_stmts_with_context(&stmts.to_vec(), sql, &ranges, config)
}

fn ops(vs: &[Violation]) -> Vec<String> {
    vs.iter().map(|v| v.operation.clone()).collect()
}

fn record(fields: &[(&str, &str)]) -> Vec<(String, ScriptField)> {
    fields.iter().map(|(k, v)| (k.to_string(), ScriptField::Str(v.to_string()))).collect()
}

#[test]
fn constant_default_without_target_version() {
    let sql = "ALTER TABLE users ADD COLUMN admin BOOLEAN DEFAULT FALSE;";
    let stmt = add_column("users", "admin", "bool", vec![default_of(ExprKind::Constant)]);
    let vs = lint(&Registry::new(), sql, &one(stmt), &Config::default());
    assert_eq!(ops(&vs), vec!["ADD COLUMN with DEFAULT".to_string()]);
    assert!(vs[0].problem.contains("'admin'"));
    assert!(vs[0].problem.contains("'users'"));
}

#[test]
fn constant_default_on_version_eleven() {
    let sql = "ALTER TABLE users ADD COLUMN admin BOOLEAN DEFAULT FALSE;";
    let stmt = add_column("users", "admin", "bool", vec![default_of(ExprKind::Constant)]);
    let config = Config { postgres_version: Some(11), ..Default::default() };
    assert_eq!(lint(&Registry::new(), sql, &one(stmt), &config).len(), 0);
}

#[test]
fn volatile_default_on_version_eleven() {
    let sql = "ALTER TABLE users ADD COLUMN admin BOOLEAN DEFAULT now();";
    let stmt = add_column("users", "admin", "bool", vec![default_of(ExprKind::FunctionCall)]);
    let config = Config { postgres_version: Some(11), ..Default::default() };
    let vs = lint(&Registry::new(), sql, &one(stmt), &config);
    assert_eq!(ops(&vs), vec!["ADD COLUMN with DEFAULT".to_string()]);
}

#[test]
fn safety_assured_block_exempts_only_wrapped_statement() {
    let sql = "-- safety-assured:start\nALTER TABLE t DROP COLUMN c;\n-- safety-assured:end\nALTER TABLE t DROP COLUMN d;\n";
    let second = sql.find(';').unwrap() + 1;
    let stmts = vec![
        RawStatement { stmt: Some(drop_column("t", "c")), location: 0 },
        RawStatement { stmt: Some(drop_column("t", "d")), location: second },
    ];
    assert_eq!(parse_ignore_ranges(sql), vec![IgnoreRange { start_line: 1, end_line: 3 }]);
    let vs = lint(&Registry::new(), sql, &stmts, &Config::default());
    assert_eq!(vs.len(), 1);
    assert_eq!(vs[0].operation, "DROP COLUMN");
    assert!(vs[0].problem.contains("'d'"));
}

#[test]
fn create_index_without_concurrently() {
    let sql = "CREATE INDEX idx ON users(email);";
    let vs = lint(&Registry::new(), sql, &one(create_index("idx", "users", &["email"], false)), &Config::default());
    assert_eq!(ops(&vs), vec!["ADD INDEX without CONCURRENTLY".to_string()]);
    let sql = "CREATE INDEX CONCURRENTLY idx ON users(email);";
    let vs = lint(&Registry::new(), sql, &one(create_index("idx", "users", &["email"], true)), &Config::default());
    assert_eq!(vs.len(), 0);
}

#[test]
fn drop_of_three_tables() {
    let sql = "DROP TABLE a, b, c;";
    let stmt = Statement::Drop(DropStmt {
        kind: ObjectKind::Table,
        objects: vec![vec!["a".to_string()], vec!["b".to_string()], vec!["c".to_string()]],
        if_exists: false,
        cascade: false,
        restrict: false,
        concurrent: false,
    });
    let vs = lint(&Registry::new(), sql, &one(stmt), &Config::default());
    assert_eq!(vs.len(), 3);
    assert!(vs.iter().all(|v| v.operation == "DROP TABLE"));
    assert!(vs[0].problem.contains("'a'") && vs[1].problem.contains("'b'") && vs[2].problem.contains("'c'"));
}

#[test]
fn untargeted_statement_kinds_give_nothing() {
    let config = Config::default();
    assert!(AddColumnCheck.check(&create_index("i", "t", &["a"], false), &config).is_empty());
    assert!(DropTableCheck.check(&drop_column("t", "c"), &config).is_empty());
    assert!(WideIndexCheck.check(&Statement::Other, &config).is_empty());
}

#[test]
fn statements_inside_block_give_nothing() {
    let sql = "-- safety-assured:start\nCREATE INDEX idx ON users(email);\n-- safety-assured:end\n";
    let stmts = vec![RawStatement { stmt: Some(create_index("idx", "users", &["email"], false)), location: 0 }];
    assert_eq!(lint(&Registry::new(), sql, &stmts, &Config::default()).len(), 0);
    assert!(is_line_ignored(2, &parse_ignore_ranges(sql)));
    assert!(!is_line_ignored(1, &parse_ignore_ranges(sql)));
    assert!(!is_line_ignored(3, &parse_ignore_ranges(sql)));
}

#[test]
fn repeated_evaluation_is_equal() {
    let stmt = add_column("users", "admin", "bool", vec![default_of(ExprKind::Constant)]);
    let config = Config::default();
    let a = AddColumnCheck.check(&stmt, &config);
    let b = AddColumnCheck.check(&stmt, &config);
    assert_eq!(ops(&a), ops(&b));
    assert_eq!(a[0].problem, b[0].problem);
    assert_eq!(a[0].safe_alternative, b[0].safe_alternative);
}

#[test]
fn disabling_removes_exactly_that_check() {
    let sql = "ALTER TABLE users ADD COLUMN created TIMESTAMP DEFAULT now();";
    let stmt = add_column("users", "created", "timestamp", vec![default_of(ExprKind::FunctionCall)]);
    let all = lint(&Registry::new(), sql, &one(stmt.clone()), &Config::default());
    assert_eq!(ops(&all), vec!["ADD COLUMN with DEFAULT".to_string(), "ADD COLUMN with TIMESTAMP".to_string()]);
    let config = Config { disable_checks: vec!["AddColumnCheck".to_string()], ..Default::default() };
    let fewer = lint(&Registry::with_config(&config), sql, &one(stmt.clone()), &config);
    assert_eq!(ops(&fewer), vec!["ADD COLUMN with TIMESTAMP".to_string()]);
    let config = Config { disable_checks: vec!["NoSuchCheck".to_string()], ..Default::default() };
    let same = lint(&Registry::with_config(&config), sql, &one(stmt), &config);
    assert_eq!(ops(&same), ops(&all));
}

#[test]
fn two_runs_give_the_same_order() {
    let sql = "DROP TABLE a, b;\nCREATE INDEX i ON t(x, y, z, w);";
    let second = sql.find(';').unwrap() + 1;
    let stmts = vec![
        RawStatement {
            stmt: Some(Statement::Drop(DropStmt {
                kind: ObjectKind::Table,
                objects: vec![vec!["a".to_string()], vec!["b".to_string()]],
                if_exists: false,
                cascade: false,
                restrict: false,
                concurrent: false,
            })),
            location: 0,
        },
        RawStatement { stmt: Some(create_index("i", "t", &["x", "y", "z", "w"], false)), location: second },
    ];
    let first = lint(&Registry::new(), sql, &stmts, &Config::default());
    let again = lint(&Registry::new(), sql, &stmts, &Config::default());
    assert_eq!(ops(&first), ops(&again));
    assert_eq!(
        ops(&first),
        vec![
            "DROP TABLE".to_string(),
            "DROP TABLE".to_string(),
            "ADD INDEX without CONCURRENTLY".to_string(),
            "CREATE INDEX with too many columns".to_string(),
        ]
    );
    assert!(first[3].problem.contains("has 4 columns (x, y, z, w)"));
}

#[test]
fn script_returning_nothing() {
    assert_eq!(parse_script_result("c", &ScriptValue::Unit).len(), 0);
}

#[test]
fn script_returning_one_record() {
    let rec = record(&[("operation", "OP"), ("problem", "locks table"), ("safe_alternative", "use X")]);
    let vs = parse_script_result("c", &ScriptValue::Record(rec));
    assert_eq!(vs.len(), 1);
    assert_eq!(vs[0].operation, "OP");
    assert_eq!(vs[0].problem, "locks table");
    assert_eq!(vs[0].safe_alternative, "use X");
}

#[test]
fn script_returning_array_of_records() {
    let items = vec![
        ScriptItem::Record(record(&[("operation", "A"), ("problem", "locks a"), ("safe_alternative", "s1")])),
        ScriptItem::Record(record(&[("operation", "B"), ("problem", "locks b"), ("safe_alternative", "s2")])),
        ScriptItem::Record(record(&[("operation", "C"), ("problem", "locks c"), ("safe_alternative", "s3")])),
    ];
    let vs = parse_script_result("c", &ScriptValue::Array(items));
    assert_eq!(ops(&vs), vec!["A".to_string(), "B".to_string(), "C".to_string()]);
    assert_eq!(vs[2].problem, "locks c");
}

#[test]
fn script_returning_malformed_values() {
    let vs = parse_script_result("my_check", &ScriptValue::Other("i64".to_string()));
    assert_eq!(vs.len(), 1);
    assert_eq!(vs[0].operation, "SCRIPT ERROR: my_check");
    assert_eq!(vs[0].problem, "Custom check returned i64, expected (), map, or array");
    let rec = record(&[("operation", "A"), ("problem", "p")]);
    let vs = parse_script_result("my_check", &ScriptValue::Record(rec));
    assert_eq!(vs.len(), 1);
    assert_eq!(vs[0].operation, "SCRIPT ERROR: my_check");
    assert!(vs[0].problem.ends_with("got keys: [operation, problem]"));
}

#[test]
fn script_failures_give_nothing() {
    assert!(outcome_violations("c", &ScriptOutcome::Failed("boom".to_string())).is_empty());
    assert!(outcome_violations("c", &ScriptOutcome::OutOfBudget).is_empty());
}

#[test]
fn script_checks_run_in_registry_order() {
    let config = Config { disable_checks: vec!["skipped".to_string()], ..Default::default() };
    let stems = vec!["first".to_string(), "skipped".to_string(), "second".to_string()];
    let registry = Registry::with_scripts(&config, &stems);
    let names = registry.active_check_names();
    assert_eq!(&names[names.len() - 2..], &["first".to_string(), "second".to_string()]);
    let n = registry.checks.len();
    let mut outcomes: Vec<ScriptOutcome> = vec![ScriptOutcome::OutOfBudget; n];
    outcomes[n - 1] = ScriptOutcome::Returned(ScriptValue::Record(record(&[
        ("operation", "CUSTOM"),
        ("problem", "p"),
        ("safe_alternative", "s"),
    ])));
    let vs = registry.check_node_with(&Statement::Other, &config, &outcomes);
    assert_eq!(ops(&vs), vec!["CUSTOM".to_string()]);
    assert!(matches!(registry.checks[n - 1], CheckEntry::Script(_)));
}

#[test]
fn nested_block_comments_are_skipped() {
    let sql = "/* outer /* inner */ still outer */ SELECT 1;";
    let tokens = non_comment_positions(sql);
    let offset = first_token_at_or_after(&tokens, 0);
    assert_eq!(&sql[offset..offset + 6], "SELECT");
}

#[test]
fn line_comments_and_quotes() {
    let sql = "-- note\n  'a--b' x";
    let tokens = non_comment_positions(sql);
    assert_eq!(tokens, vec![10, 11, 12, 13, 14, 15, 17]);
    assert_eq!(first_token_at_or_after(&tokens, 0), 10);
    assert_eq!(first_token_at_or_after(&tokens, 16), 17);
    assert_eq!(first_token_at_or_after(&tokens, 40), 40);
}

#[test]
fn unterminated_and_stray_markers() {
    assert!(parse_ignore_ranges("-- safety-assured:end\nSELECT 1;").is_empty());
    assert!(parse_ignore_ranges("-- safety-assured:start\nSELECT 1;").is_empty());
    let sql = "x\n  -- safety-assured:start\n-- safety-assured:start\ny\n-- safety-assured:end\n";
    assert_eq!(parse_ignore_ranges(sql), vec![IgnoreRange { start_line: 2, end_line: 5 }]);
    assert!(parse_ignore_ranges("SELECT 'safety-assured:start';\n-- safety-assured:end").is_empty());
}

#[test]
fn script_array_with_non_record_element() {
    let vs = parse_script_result("my_check", &ScriptValue::Array(vec![ScriptItem::Other]));
    assert_eq!(vs.len(), 1);
    assert_eq!(vs[0].operation, "SCRIPT ERROR: my_check");
    assert!(vs[0].problem.contains("element 0 is not a map"));
}

#[test]
fn script_array_with_malformed_records_gives_one_error() {
    let items = vec![
        ScriptItem::Record(record(&[("operation", "A"), ("problem", "locks a"), ("safe_alternative", "s1")])),
        ScriptItem::Record(record(&[("operation", "B")])),
        ScriptItem::Record(record(&[("problem", "x")])),
    ];
    let vs = parse_script_result("my_check", &ScriptValue::Array(items));
    assert_eq!(vs.len(), 1);
    assert_eq!(vs[0].operation, "SCRIPT ERROR: my_check");
    assert!(vs[0].problem.contains("element 1 is a map with keys [operation]"));
}

#[test]
fn script_record_with_empty_field_is_malformed() {
    let rec = record(&[("operation", ""), ("problem", "p"), ("safe_alternative", "s")]);
    let vs = parse_script_result("c", &ScriptValue::Record(rec));
    assert_eq!(vs.len(), 1);
    assert_eq!(vs[0].operation, "SCRIPT ERROR: c");
}

#[test]
fn script_files_load_in_name_order() {
    let config = Config { disable_checks: vec!["off".to_string()], ..Default::default() };
    let files: Vec<String> = ["zeta.rhai", "notes.txt", "off.rhai", "a-b.rhai", "a.rhai", ".rhai"]
        .iter()
        .map(|s| s.to_string())
        .collect();
    let names = script_file_names(&files, &config);
    assert_eq!(names, vec!["a-b.rhai".to_string(), "a.rhai".to_string(), "zeta.rhai".to_string()]);
    assert_eq!(script_stems(&names), vec!["a-b".to_string(), "a".to_string(), "zeta".to_string()]);
}
