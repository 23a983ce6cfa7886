//! Constraints added without a name get one generated by the database, which
//! later migrations then have to look up.
use vstd::prelude::*;
use crate::checks::{Check, CmdRule, cmd_rule_all, cmd_rule_fn};
use crate::config::Config;
use crate::helpers::{gather, no_violations, one_violation, opt_range_var_name, opt_rv_name};
use crate::text::owned;
use crate::tree::{AlterTableCmd, Statement};
use crate::violation::{Violation, ViolationView, views, violation_of};
use vstd::string::StringExecFns;
use crate::helpers::{cmd_constraint, cmd_def_as_constraint, constraint_columns_str};
use crate::messages::{
    foreign_key_columns, make_foreign_key_columns, make_unnamed_alternative,
    make_unnamed_problem, unnamed_alternative, unnamed_problem,
};
use crate::text::{join, join_spec, strs};
use crate::tree::{Constraint, ConstraintKind};

verus! {

/// Flags UNIQUE, FOREIGN KEY and CHECK constraints added without a name.
pub struct UnnamedConstraintCheck;

/// How an unnamed constraint is described: its kind, its columns, and the
/// suffix of a suggested name; `None` for kinds that are not flagged.
pub open spec fn unnamed_shape(c: Constraint) -> Option<(Seq<char>, Seq<char>, Seq<char>)> {
    match c.kind {
        ConstraintKind::Unique => Some(("UNIQUE"@, join_spec(strs(c.keys@), ", "@), "column_key"@)),
        ConstraintKind::Foreign => Some(
            (
                "FOREIGN KEY"@,
                foreign_key_columns(
                    join_spec(strs(c.fk_columns@), ", "@),
                    opt_rv_name(c.ref_table),
                    join_spec(strs(c.ref_columns@), ", "@),
                ),
                "column_fkey"@,
            ),
        ),
        ConstraintKind::Check => Some(("CHECK"@, "(...)"@, "column_check"@)),
        _ => None,
    }
}

/// What one command yields: a violation when it adds a UNIQUE, FOREIGN KEY
/// or CHECK constraint without a name.
pub open spec fn unnamed_cmd(table: Seq<char>, cmd: AlterTableCmd) -> Seq<ViolationView> {
    match cmd_constraint(cmd) {
        Some(c) => if c.name@.len() == 0 && unnamed_shape(c) is Some {
            let (k, cols, suggested) = unnamed_shape(c)->Some_0;
            seq![
                violation_of(
                    "CONSTRAINT without name"@,
                    unnamed_problem(k, table),
                    unnamed_alternative(table, k, cols, suggested),
                ),
            ]
        } else {
            Seq::empty()
        },
        None => Seq::empty(),
    }
}

pub(crate) fn unnamed_one(table: &str, cmd: &AlterTableCmd) -> (r: Vec<Violation>)
    ensures
        views(r@) == unnamed_cmd(table@, *cmd),
{
    match cmd_def_as_constraint(cmd) {
        Some(c) => {
            if c.name.as_str().unicode_len() != 0 {
                return no_violations();
            }
            let (k, cols, suggested) = match c.kind {
                ConstraintKind::Unique => ("UNIQUE", constraint_columns_str(c), "column_key"),
                ConstraintKind::Foreign => {
                    let fk = join(&c.fk_columns, ", ");
                    let rt = opt_range_var_name(&c.ref_table);
                    let rc = join(&c.ref_columns, ", ");
                    (
                        "FOREIGN KEY",
                        make_foreign_key_columns(fk.as_str(), rt.as_str(), rc.as_str()),
                        "column_fkey",
                    )
                },
                ConstraintKind::Check => ("CHECK", owned("(...)"), "column_check"),
                _ => {
                    return no_violations();
                },
            };
            one_violation(
                Violation::new(
                    owned("CONSTRAINT without name"),
                    make_unnamed_problem(k, table),
                    make_unnamed_alternative(table, k, cols.as_str(), suggested),
                ),
            )
        },
        None => no_violations(),
    }
}

impl Check for UnnamedConstraintCheck {
    open spec fn spec_name(&self) -> Seq<char> {
        "UnnamedConstraintCheck"@
    }

    open spec fn spec_check(&self, node: Statement, config: Config) -> Seq<ViolationView> {
        match node {
            Statement::AlterTable { relation, cmds } => gather(
                cmds@,
                cmd_rule_fn(CmdRule::UnnamedConstraint, opt_rv_name(relation), config),
            ),
            _ => Seq::empty(),
        }
    }

    fn name(&self) -> (r: &'static str) {
        "UnnamedConstraintCheck"
    }

    fn check(&self, node: &Statement, config: &Config) -> (r: Vec<Violation>) {
        match node {
            Statement::AlterTable { relation, cmds } => {
                let table = opt_range_var_name(relation);
                cmd_rule_all(CmdRule::UnnamedConstraint, table.as_str(), cmds, config)
            },
            _ => no_violations(),
        }
    }
}

} // verus!
