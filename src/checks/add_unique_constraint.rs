//! ADD CONSTRAINT ... UNIQUE: builds the index under an ACCESS EXCLUSIVE lock,
//! unless it adopts an existing index with USING INDEX.
use vstd::prelude::*;
use crate::checks::{Check, CmdRule, cmd_rule_all, cmd_rule_fn};
use crate::config::Config;
use crate::helpers::{gather, no_violations, one_violation, opt_range_var_name, opt_rv_name};
use crate::text::owned;
use crate::tree::{AlterTableCmd, Statement};
use crate::violation::{Violation, ViolationView, views, violation_of};
use vstd::string::StringExecFns;
use crate::helpers::{cmd_constraint, cmd_def_as_constraint, constraint_columns_str, name_or};
use crate::messages::{make_unique_alternative, make_unique_problem, unique_alternative, unique_problem};
use crate::text::{join_spec, strs};
use crate::tree::ConstraintKind;

verus! {

/// Flags UNIQUE constraints added in place rather than over an index built concurrently.
pub struct AddUniqueConstraintCheck;

/// What one command yields: a violation when it adds a UNIQUE constraint
/// that does not adopt an existing index.
pub open spec fn add_unique_cmd(table: Seq<char>, cmd: AlterTableCmd) -> Seq<ViolationView> {
    match cmd_constraint(cmd) {
        Some(c) => if c.kind == ConstraintKind::Unique && c.index_name@.len() == 0 {
            let cols = join_spec(strs(c.keys@), ", "@);
            seq![
                violation_of(
                    "ADD UNIQUE constraint"@,
                    unique_problem(name_or(c.name@, "<unnamed>"@), table, cols),
                    unique_alternative(
                        name_or(c.name@, table + "_unique_idx"@),
                        table,
                        cols,
                        name_or(c.name@, table + "_unique_constraint"@),
                    ),
                ),
            ]
        } else {
            Seq::empty()
        },
        None => Seq::empty(),
    }
}

pub(crate) fn add_unique_one(table: &str, cmd: &AlterTableCmd) -> (r: Vec<Violation>)
    ensures
        views(r@) == add_unique_cmd(table@, *cmd),
{
    match cmd_def_as_constraint(cmd) {
        Some(c) => {
            if c.kind != ConstraintKind::Unique || c.index_name.as_str().unicode_len() != 0 {
                return no_violations();
            }
            let cols = constraint_columns_str(c);
            let named = c.name.as_str().unicode_len() != 0;
            let shown = if named { c.name.clone() } else { owned("<unnamed>") };
            let index_name = if named {
                c.name.clone()
            } else {
                let mut s = owned(table);
                s.append("_unique_idx");
                s
            };
            let constraint_name = if named {
                c.name.clone()
            } else {
                let mut s = owned(table);
                s.append("_unique_constraint");
                s
            };
            one_violation(
                Violation::new(
                    owned("ADD UNIQUE constraint"),
                    make_unique_problem(shown.as_str(), table, cols.as_str()),
                    make_unique_alternative(
                        index_name.as_str(),
                        table,
                        cols.as_str(),
                        constraint_name.as_str(),
                    ),
                ),
            )
        },
        None => no_violations(),
    }
}

impl Check for AddUniqueConstraintCheck {
    open spec fn spec_name(&self) -> Seq<char> {
        "AddUniqueConstraintCheck"@
    }

    open spec fn spec_check(&self, node: Statement, config: Config) -> Seq<ViolationView> {
        match node {
            Statement::AlterTable { relation, cmds } => gather(
                cmds@,
                cmd_rule_fn(CmdRule::AddUniqueConstraint, opt_rv_name(relation), config),
            ),
            _ => Seq::empty(),
        }
    }

    fn name(&self) -> (r: &'static str) {
        "AddUniqueConstraintCheck"
    }

    fn check(&self, node: &Statement, config: &Config) -> (r: Vec<Violation>) {
        match node {
            Statement::AlterTable { relation, cmds } => {
                let table = opt_range_var_name(relation);
                cmd_rule_all(CmdRule::AddUniqueConstraint, table.as_str(), cmds, config)
            },
            _ => no_violations(),
        }
    }
}

} // verus!
