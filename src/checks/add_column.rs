//! ADD COLUMN with DEFAULT: rewrites the table before Postgres 11, and on every
//! version when the default is not a constant.
use vstd::prelude::*;
use vstd::string::StringExecFns;
use crate::checks::{Check, CmdRule, cmd_rule_all, cmd_rule_fn};
use crate::config::Config;
use crate::helpers::{
    cmd_column, column_type_name, constant_default_spec, gather, has_constraint,
    is_constant_default, column_has_constraint, cmd_def_as_column_def, no_violations,
    opt_range_var_name, opt_rv_name, type_name_spec,
};
use crate::text::owned;
use crate::tree::{AlterTableCmd, ConstraintKind, Statement};
use crate::violation::{Violation, ViolationView, views, violation_of};

verus! {

/// Flags ADD COLUMN with a DEFAULT that forces a table rewrite.
pub struct AddColumnCheck;

/// Why adding a column with a DEFAULT is unsafe.
pub open spec fn add_column_problem(table: Seq<char>, column: Seq<char>) -> Seq<char> {
    "Adding column '"@ + column + "' with DEFAULT on table '"@ + table
        + "' requires a full table rewrite on Postgres < 11, which acquires an ACCESS EXCLUSIVE lock and blocks all operations. Duration depends on table size."@
}

/// How to add a column with a DEFAULT safely.
pub open spec fn add_column_alternative(
    table: Seq<char>,
    column: Seq<char>,
    data_type: Seq<char>,
) -> Seq<char> {
    "1. Add the column without a default:\n   ALTER TABLE "@ + table + " ADD COLUMN "@ + column
        + " "@ + data_type + ";\n\n2. Backfill data in batches (outside migration):\n   UPDATE "@
        + table + " SET "@ + column + " = <value> WHERE "@ + column
        + " IS NULL;\n\n3. Add default for new rows only:\n   ALTER TABLE "@ + table
        + " ALTER COLUMN "@ + column
        + " SET DEFAULT <value>;\n\nNote: For Postgres 11+, this is safe if the default is a constant value."@
}

/// [`add_column_problem`] is never empty.
pub broadcast proof fn lemma_add_column_problem_nonempty(table: Seq<char>, column: Seq<char>)
    ensures
        #[trigger] add_column_problem(table, column).len() > 0,
{
    reveal_strlit("Adding column '");
}

/// [`add_column_alternative`] is never empty.
pub broadcast proof fn lemma_add_column_alternative_nonempty(
    table: Seq<char>,
    column: Seq<char>,
    data_type: Seq<char>,
)
    ensures
        #[trigger] add_column_alternative(table, column, data_type).len() > 0,
{
    reveal_strlit("1. Add the column without a default:\n   ALTER TABLE ");
}

/// Whether a command adds a column whose DEFAULT forces a rewrite under the
/// configuration: constant defaults are exempt from Postgres 11 on.
pub open spec fn add_column_flags(cmd: AlterTableCmd, config: Config) -> bool {
    match cmd_column(cmd) {
        Some(col) => has_constraint(col, ConstraintKind::Default) && !(config.version_at_least(11)
            && constant_default_spec(col)),
        None => false,
    }
}

/// What one command yields: a violation when it adds a column whose
/// DEFAULT forces a rewrite.
pub open spec fn add_column_cmd(table: Seq<char>, cmd: AlterTableCmd, config: Config) -> Seq<
    ViolationView,
> {
    if add_column_flags(cmd, config) {
        let col = cmd_column(cmd)->Some_0;
        seq![
            violation_of(
                "ADD COLUMN with DEFAULT"@,
                add_column_problem(table, col.name@),
                add_column_alternative(table, col.name@, type_name_spec(col.type_names@)),
            ),
        ]
    } else {
        Seq::empty()
    }
}

/// One violation per ALTER TABLE command that adds a column with a DEFAULT
/// that forces a rewrite.
pub open spec fn add_column_spec(node: Statement, config: Config) -> Seq<ViolationView> {
    match node {
        Statement::AlterTable { relation, cmds } => gather(
            cmds@,
            cmd_rule_fn(CmdRule::AddColumn, opt_rv_name(relation), config),
        ),
        _ => Seq::empty(),
    }
}

pub(crate) fn add_column_one(table: &str, cmd: &AlterTableCmd, config: &Config) -> (r: Vec<Violation>)
    ensures
        views(r@) == add_column_cmd(table@, *cmd, *config),
{
    let mut out: Vec<Violation> = Vec::new();
    if let Some(col) = cmd_def_as_column_def(cmd) {
        if !column_has_constraint(col, ConstraintKind::Default) {
            assert(views(out@) =~= Seq::empty());
            return out;
        }
        let v11 = match config.postgres_version {
            Some(v) => v >= 11,
            None => false,
        };
        if v11 && is_constant_default(col) {
            assert(views(out@) =~= Seq::empty());
            return out;
        }
        let column = col.name.as_str();
        let data_type = column_type_name(col);
        let mut p = owned("Adding column '");
        p.append(column);
        p.append("' with DEFAULT on table '");
        p.append(table);
        p.append(
            "' requires a full table rewrite on Postgres < 11, which acquires an ACCESS EXCLUSIVE lock and blocks all operations. Duration depends on table size.",
        );
        let mut a = owned("1. Add the column without a default:\n   ALTER TABLE ");
        a.append(table);
        a.append(" ADD COLUMN ");
        a.append(column);
        a.append(" ");
        a.append(data_type.as_str());
        a.append(";\n\n2. Backfill data in batches (outside migration):\n   UPDATE ");
        a.append(table);
        a.append(" SET ");
        a.append(column);
        a.append(" = <value> WHERE ");
        a.append(column);
        a.append(" IS NULL;\n\n3. Add default for new rows only:\n   ALTER TABLE ");
        a.append(table);
        a.append(" ALTER COLUMN ");
        a.append(column);
        a.append(
            " SET DEFAULT <value>;\n\nNote: For Postgres 11+, this is safe if the default is a constant value.",
        );
        out.push(Violation::new(owned("ADD COLUMN with DEFAULT"), p, a));
        assert(views(out@) =~= add_column_cmd(table@, *cmd, *config));
    } else {
        assert(views(out@) =~= Seq::empty());
    }
    out
}

impl Check for AddColumnCheck {
    open spec fn spec_name(&self) -> Seq<char> {
        "AddColumnCheck"@
    }

    open spec fn spec_check(&self, node: Statement, config: Config) -> Seq<ViolationView> {
        add_column_spec(node, config)
    }

    fn name(&self) -> (r: &'static str) {
        "AddColumnCheck"
    }

    fn check(&self, node: &Statement, config: &Config) -> (r: Vec<Violation>) {
        match node {
            Statement::AlterTable { relation, cmds } => {
                let table = opt_range_var_name(relation);
                cmd_rule_all(CmdRule::AddColumn, table.as_str(), cmds, config)
            },
            _ => no_violations(),
        }
    }
}

} // verus!
