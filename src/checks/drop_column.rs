//! DROP COLUMN: takes an exclusive lock, and breaks whatever still reads the column.
use vstd::prelude::*;
use crate::checks::{Check, CmdRule, cmd_rule_all, cmd_rule_fn};
use crate::config::Config;
use crate::helpers::{gather, no_violations, one_violation, opt_range_var_name, opt_rv_name};
use crate::text::owned;
use crate::tree::{AlterTableCmd, Statement};
use crate::violation::{Violation, ViolationView, views, violation_of};
use crate::helpers::if_exists_clause;
use crate::messages::{
    drop_column_alternative, drop_column_problem, make_drop_column_alternative,
    make_drop_column_problem,
};
use crate::tree::AlterKind;

verus! {

/// Flags every dropped column.
pub struct DropColumnCheck;

/// What one command yields: a violation when it drops a column.
pub open spec fn drop_column_cmd(table: Seq<char>, cmd: AlterTableCmd) -> Seq<ViolationView> {
    if cmd.kind == AlterKind::DropColumn {
        seq![
            violation_of(
                "DROP COLUMN"@,
                drop_column_problem(cmd.name@, table),
                drop_column_alternative(
                    table,
                    cmd.name@,
                    if cmd.if_exists { " IF EXISTS"@ } else { ""@ },
                ),
            ),
        ]
    } else {
        Seq::empty()
    }
}

pub(crate) fn drop_column_one(table: &str, cmd: &AlterTableCmd) -> (r: Vec<Violation>)
    ensures
        views(r@) == drop_column_cmd(table@, *cmd),
{
    if cmd.kind != AlterKind::DropColumn {
        return no_violations();
    }
    one_violation(
        Violation::new(
            owned("DROP COLUMN"),
            make_drop_column_problem(cmd.name.as_str(), table),
            make_drop_column_alternative(table, cmd.name.as_str(), if_exists_clause(cmd.if_exists)),
        ),
    )
}

impl Check for DropColumnCheck {
    open spec fn spec_name(&self) -> Seq<char> {
        "DropColumnCheck"@
    }

    open spec fn spec_check(&self, node: Statement, config: Config) -> Seq<ViolationView> {
        match node {
            Statement::AlterTable { relation, cmds } => gather(
                cmds@,
                cmd_rule_fn(CmdRule::DropColumn, opt_rv_name(relation), config),
            ),
            _ => Seq::empty(),
        }
    }

    fn name(&self) -> (r: &'static str) {
        "DropColumnCheck"
    }

    fn check(&self, node: &Statement, config: &Config) -> (r: Vec<Violation>) {
        match node {
            Statement::AlterTable { relation, cmds } => {
                let table = opt_range_var_name(relation);
                cmd_rule_all(CmdRule::DropColumn, table.as_str(), cmds, config)
            },
            _ => no_violations(),
        }
    }
}

} // verus!
