//! ALTER COLUMN ... TYPE: may rewrite the table under an ACCESS EXCLUSIVE lock.
use vstd::prelude::*;
use crate::checks::{Check, CmdRule, cmd_rule_all, cmd_rule_fn};
use crate::config::Config;
use crate::helpers::{gather, no_violations, one_violation, opt_range_var_name, opt_rv_name};
use crate::text::owned;
use crate::tree::{AlterTableCmd, Statement};
use crate::violation::{Violation, ViolationView, views, violation_of};
use crate::helpers::{cmd_column, cmd_def_as_column_def, column_type_name, type_name_spec};
use crate::messages::{
    alter_type_alternative, alter_type_problem, make_alter_type_alternative,
    make_alter_type_problem,
};
use crate::tree::AlterKind;

verus! {

/// Flags changes of a column's type.
pub struct AlterColumnTypeCheck;

/// What one command yields: a violation when it changes a column's type.
pub open spec fn alter_type_cmd(table: Seq<char>, cmd: AlterTableCmd) -> Seq<ViolationView> {
    if cmd.kind == AlterKind::AlterColumnType {
        let new_type = match cmd_column(cmd) {
            Some(col) => type_name_spec(col.type_names@),
            None => Seq::empty(),
        };
        seq![
            violation_of(
                "ALTER COLUMN TYPE"@,
                alter_type_problem(cmd.name@, new_type, table),
                alter_type_alternative(table, cmd.name@, new_type),
            ),
        ]
    } else {
        Seq::empty()
    }
}

pub(crate) fn alter_type_one(table: &str, cmd: &AlterTableCmd) -> (r: Vec<Violation>)
    ensures
        views(r@) == alter_type_cmd(table@, *cmd),
{
    if cmd.kind != AlterKind::AlterColumnType {
        return no_violations();
    }
    let new_type = match cmd_def_as_column_def(cmd) {
        Some(col) => column_type_name(col),
        None => String::new(),
    };
    one_violation(
        Violation::new(
            owned("ALTER COLUMN TYPE"),
            make_alter_type_problem(cmd.name.as_str(), new_type.as_str(), table),
            make_alter_type_alternative(table, cmd.name.as_str(), new_type.as_str()),
        ),
    )
}

impl Check for AlterColumnTypeCheck {
    open spec fn spec_name(&self) -> Seq<char> {
        "AlterColumnTypeCheck"@
    }

    open spec fn spec_check(&self, node: Statement, config: Config) -> Seq<ViolationView> {
        match node {
            Statement::AlterTable { relation, cmds } => gather(
                cmds@,
                cmd_rule_fn(CmdRule::AlterColumnType, opt_rv_name(relation), config),
            ),
            _ => Seq::empty(),
        }
    }

    fn name(&self) -> (r: &'static str) {
        "AlterColumnTypeCheck"
    }

    fn check(&self, node: &Statement, config: &Config) -> (r: Vec<Violation>) {
        match node {
            Statement::AlterTable { relation, cmds } => {
                let table = opt_range_var_name(relation);
                cmd_rule_all(CmdRule::AlterColumnType, table.as_str(), cmds, config)
            },
            _ => no_violations(),
        }
    }
}

} // verus!
