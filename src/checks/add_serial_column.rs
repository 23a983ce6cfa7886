//! ADD COLUMN with a SERIAL type: fills every existing row from a sequence,
//! which rewrites the table.
use vstd::prelude::*;
use crate::checks::{Check, CmdRule, cmd_rule_all, cmd_rule_fn};
use crate::config::Config;
use crate::helpers::{
    cmd_column, cmd_def_as_column_def, column_type_name, gather, is_serial_pattern,
    no_violations, one_violation, opt_range_var_name, opt_rv_name, serial_spec, type_name_spec,
};
use crate::messages::{
    add_serial_alternative, add_serial_problem, make_add_serial_alternative,
    make_add_serial_problem,
};
use crate::text::owned;
use crate::tree::{AlterTableCmd, Statement};
use crate::violation::{Violation, ViolationView, views, violation_of};

verus! {

/// Flags ADD COLUMN with SERIAL, BIGSERIAL or SMALLSERIAL.
pub struct AddSerialColumnCheck;

/// What one command yields: a violation when it adds a SERIAL column.
pub open spec fn add_serial_cmd(table: Seq<char>, cmd: AlterTableCmd) -> Seq<ViolationView> {
    match cmd_column(cmd) {
        Some(col) => if serial_spec(type_name_spec(col.type_names@)) {
            seq![
                violation_of(
                    "ADD COLUMN with SERIAL"@,
                    add_serial_problem(table, col.name@),
                    add_serial_alternative(table, col.name@, type_name_spec(col.type_names@)),
                ),
            ]
        } else {
            Seq::empty()
        },
        None => Seq::empty(),
    }
}

pub(crate) fn add_serial_one(table: &str, cmd: &AlterTableCmd) -> (r: Vec<Violation>)
    ensures
        views(r@) == add_serial_cmd(table@, *cmd),
{
    match cmd_def_as_column_def(cmd) {
        Some(col) => {
            if !is_serial_pattern(col) {
                return no_violations();
            }
            let t = column_type_name(col);
            one_violation(
                Violation::new(
                    owned("ADD COLUMN with SERIAL"),
                    make_add_serial_problem(table, col.name.as_str()),
                    make_add_serial_alternative(table, col.name.as_str(), t.as_str()),
                ),
            )
        },
        None => no_violations(),
    }
}

impl Check for AddSerialColumnCheck {
    open spec fn spec_name(&self) -> Seq<char> {
        "AddSerialColumnCheck"@
    }

    open spec fn spec_check(&self, node: Statement, config: Config) -> Seq<ViolationView> {
        match node {
            Statement::AlterTable { relation, cmds } => gather(
                cmds@,
                cmd_rule_fn(CmdRule::AddSerialColumn, opt_rv_name(relation), config),
            ),
            _ => Seq::empty(),
        }
    }

    fn name(&self) -> (r: &'static str) {
        "AddSerialColumnCheck"
    }

    fn check(&self, node: &Statement, config: &Config) -> (r: Vec<Violation>) {
        match node {
            Statement::AlterTable { relation, cmds } => {
                let table = opt_range_var_name(relation);
                cmd_rule_all(CmdRule::AddSerialColumn, table.as_str(), cmds, config)
            },
            _ => no_violations(),
        }
    }
}

} // verus!
