//! ADD PRIMARY KEY: builds its index under an ACCESS EXCLUSIVE lock, unless it
//! adopts an existing index with USING INDEX.
use vstd::prelude::*;
use crate::checks::{Check, CmdRule, cmd_rule_all, cmd_rule_fn};
use crate::config::Config;
use crate::helpers::{gather, no_violations, one_violation, opt_range_var_name, opt_rv_name};
use crate::text::owned;
use crate::tree::{AlterTableCmd, Statement};
use crate::violation::{Violation, ViolationView, views, violation_of};
use vstd::string::StringExecFns;
use crate::helpers::{cmd_constraint, cmd_def_as_constraint, constraint_columns_str, name_or};
use crate::messages::{add_pk_alternative, add_pk_problem, make_add_pk_alternative, make_add_pk_problem};
use crate::text::{join_spec, strs};
use crate::tree::ConstraintKind;

verus! {

/// Flags primary keys added in place rather than over an index built concurrently.
pub struct AddPrimaryKeyCheck;

pub open spec fn add_pk_cmd(table: Seq<char>, cmd: AlterTableCmd) -> Seq<ViolationView> {
    match cmd_constraint(cmd) {
        Some(c) => if c.kind == ConstraintKind::Primary && c.index_name@.len() == 0 {
            let cols = join_spec(strs(c.keys@), ", "@);
            seq![
                violation_of(
                    "ADD PRIMARY KEY"@,
                    add_pk_problem(table, cols),
                    add_pk_alternative(table, cols, name_or(c.name@, table + "_pkey"@)),
                ),
            ]
        } else {
            Seq::empty()
        },
        None => Seq::empty(),
    }
}

pub(crate) fn add_pk_one(table: &str, cmd: &AlterTableCmd) -> (r: Vec<Violation>)
    ensures
        views(r@) == add_pk_cmd(table@, *cmd),
{
    match cmd_def_as_constraint(cmd) {
        Some(c) => {
            if c.kind != ConstraintKind::Primary || c.index_name.as_str().unicode_len() != 0 {
                return no_violations();
            }
            let cols = constraint_columns_str(c);
            let index = if c.name.as_str().unicode_len() != 0 {
                c.name.clone()
            } else {
                let mut s = owned(table);
                s.append("_pkey");
                s
            };
            one_violation(
                Violation::new(
                    owned("ADD PRIMARY KEY"),
                    make_add_pk_problem(table, cols.as_str()),
                    make_add_pk_alternative(table, cols.as_str(), index.as_str()),
                ),
            )
        },
        None => no_violations(),
    }
}

impl Check for AddPrimaryKeyCheck {
    open spec fn spec_name(&self) -> Seq<char> {
        "AddPrimaryKeyCheck"@
    }

    open spec fn spec_check(&self, node: Statement, config: Config) -> Seq<ViolationView> {
        match node {
            Statement::AlterTable { relation, cmds } => gather(
                cmds@,
                cmd_rule_fn(CmdRule::AddPrimaryKey, opt_rv_name(relation), config),
            ),
            _ => Seq::empty(),
        }
    }

    fn name(&self) -> (r: &'static str) {
        "AddPrimaryKeyCheck"
    }

    fn check(&self, node: &Statement, config: &Config) -> (r: Vec<Violation>) {
        match node {
            Statement::AlterTable { relation, cmds } => {
                let table = opt_range_var_name(relation);
                cmd_rule_all(CmdRule::AddPrimaryKey, table.as_str(), cmds, config)
            },
            _ => no_violations(),
        }
    }
}

} // verus!
