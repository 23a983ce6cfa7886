//! ADD COLUMN ... GENERATED ALWAYS AS (...) STORED: computes and stores a value
//! for every existing row, which rewrites the table.
use vstd::prelude::*;
use crate::checks::{Check, CmdRule, cmd_rule_all, cmd_rule_fn};
use crate::config::Config;
use crate::helpers::{gather, no_violations, one_violation, opt_range_var_name, opt_rv_name};
use crate::text::owned;
use crate::tree::{AlterTableCmd, Statement};
use crate::violation::{Violation, ViolationView, views, violation_of};
use crate::helpers::{cmd_column, cmd_def_as_column_def, column_type_name, type_name_spec};
use crate::messages::{
    generated_alternative, generated_problem, make_generated_alternative, make_generated_problem,
};
use crate::tree::{ColumnDef, ConstraintKind};

verus! {

/// Flags added columns whose generated value is stored.
pub struct GeneratedColumnCheck;

/// Whether the column is GENERATED ALWAYS AS (expression) STORED.
pub open spec fn stored_generated_spec(col: ColumnDef) -> bool {
    exists|j: int|
        0 <= j < col.constraints@.len() && col.constraints@[j].kind == ConstraintKind::Generated
            && col.constraints@[j].stored && col.constraints@[j].expr is Some
}

/// Whether the column is GENERATED ALWAYS AS (expression) STORED.
pub fn has_stored_generated_column(col: &ColumnDef) -> (r: bool)
    ensures
        r == stored_generated_spec(*col),
{
    let mut i: usize = 0;
    while i < col.constraints.len()
        invariant
            i <= col.constraints.len(),
            forall|j: int|
                0 <= j < i ==> !(col.constraints@[j].kind == ConstraintKind::Generated
                    && col.constraints@[j].stored && col.constraints@[j].expr is Some),
        decreases col.constraints.len() - i,
    {
        let c = &col.constraints[i];
        if c.kind == ConstraintKind::Generated && c.stored && c.expr.is_some() {
            return true;
        }
        i = i + 1;
    }
    false
}

/// What one command yields: a violation when it adds a stored generated
/// column.
pub open spec fn generated_cmd(table: Seq<char>, cmd: AlterTableCmd) -> Seq<ViolationView> {
    match cmd_column(cmd) {
        Some(col) => if stored_generated_spec(col) {
            seq![
                violation_of(
                    "ADD COLUMN with GENERATED STORED"@,
                    generated_problem(col.name@, table),
                    generated_alternative(table, col.name@, type_name_spec(col.type_names@)),
                ),
            ]
        } else {
            Seq::empty()
        },
        None => Seq::empty(),
    }
}

pub(crate) fn generated_one(table: &str, cmd: &AlterTableCmd) -> (r: Vec<Violation>)
    ensures
        views(r@) == generated_cmd(table@, *cmd),
{
    match cmd_def_as_column_def(cmd) {
        Some(col) => {
            if !has_stored_generated_column(col) {
                return no_violations();
            }
            let t = column_type_name(col);
            one_violation(
                Violation::new(
                    owned("ADD COLUMN with GENERATED STORED"),
                    make_generated_problem(col.name.as_str(), table),
                    make_generated_alternative(table, col.name.as_str(), t.as_str()),
                ),
            )
        },
        None => no_violations(),
    }
}

impl Check for GeneratedColumnCheck {
    open spec fn spec_name(&self) -> Seq<char> {
        "GeneratedColumnCheck"@
    }

    open spec fn spec_check(&self, node: Statement, config: Config) -> Seq<ViolationView> {
        match node {
            Statement::AlterTable { relation, cmds } => gather(
                cmds@,
                cmd_rule_fn(CmdRule::GeneratedColumn, opt_rv_name(relation), config),
            ),
            _ => Seq::empty(),
        }
    }

    fn name(&self) -> (r: &'static str) {
        "GeneratedColumnCheck"
    }

    fn check(&self, node: &Statement, config: &Config) -> (r: Vec<Violation>) {
        match node {
            Statement::AlterTable { relation, cmds } => {
                let table = opt_range_var_name(relation);
                cmd_rule_all(CmdRule::GeneratedColumn, table.as_str(), cmds, config)
            },
            _ => no_violations(),
        }
    }
}

} // verus!
