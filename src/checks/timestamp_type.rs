//! TIMESTAMP without time zone: values lose their time zone context. A
//! best-practice warning without locking impact.
use vstd::prelude::*;
use crate::checks::{Check, CmdRule, ElemRule, cmd_rule_all, cmd_rule_fn, elem_rule_all, elem_rule_fn};
use crate::config::Config;
use crate::helpers::{
    cmd_column, cmd_def_as_column_def, column_type_name, gather, no_violations, one_violation,
    opt_range_var_name, opt_rv_name, type_name_spec,
};
use crate::text::owned;
use crate::tree::{AlterKind, AlterTableCmd, ColumnDef, Statement, TableElement};
use crate::violation::{Violation, ViolationView, views, violation_of};
use crate::helpers::is_timestamp_without_tz;
use crate::messages::{
    make_timestamp_alter_alternative, make_timestamp_create_alternative, make_timestamp_problem,
    timestamp_alter_alternative, timestamp_create_alternative, timestamp_problem,
};

verus! {

/// Flags TIMESTAMP columns in CREATE TABLE and ALTER TABLE.
pub struct TimestampTypeCheck;

/// The violation for a TIMESTAMP column added by ALTER TABLE.
pub fn create_alter_table_violation(table_name: &str, column_name: &str) -> (r: Violation)
    ensures
        r@ == violation_of(
            "ADD COLUMN with TIMESTAMP"@,
            timestamp_problem(column_name@),
            timestamp_alter_alternative(table_name@, column_name@),
        ),
{
    Violation::new(
        owned("ADD COLUMN with TIMESTAMP"),
        make_timestamp_problem(column_name),
        make_timestamp_alter_alternative(table_name, column_name),
    )
}

/// The violation for a TIMESTAMP column of CREATE TABLE.
pub fn create_create_table_violation(table_name: &str, column_name: &str) -> (r: Violation)
    ensures
        r@ == violation_of(
            "CREATE TABLE with TIMESTAMP"@,
            timestamp_problem(column_name@),
            timestamp_create_alternative(table_name@, column_name@),
        ),
{
    Violation::new(
        owned("CREATE TABLE with TIMESTAMP"),
        make_timestamp_problem(column_name),
        make_timestamp_create_alternative(table_name, column_name),
    )
}

/// What one command yields: a violation for a TIMESTAMP column it carries.
pub open spec fn timestamp_cmd(table: Seq<char>, cmd: AlterTableCmd) -> Seq<ViolationView> {
    match cmd_column(cmd) {
        Some(col) => if type_name_spec(col.type_names@) == "timestamp"@ {
            seq![
                violation_of(
                    "ADD COLUMN with TIMESTAMP"@,
                    timestamp_problem(col.name@),
                    timestamp_alter_alternative(table, col.name@),
                ),
            ]
        } else {
            Seq::empty()
        },
        None => Seq::empty(),
    }
}

pub(crate) fn timestamp_cmd_one(table: &str, cmd: &AlterTableCmd) -> (r: Vec<Violation>)
    ensures
        views(r@) == timestamp_cmd(table@, *cmd),
{
    match cmd_def_as_column_def(cmd) {
        Some(col) => {
            let t = column_type_name(col);
            if !is_timestamp_without_tz(t.as_str()) {
                return no_violations();
            }
            one_violation(create_alter_table_violation(table, col.name.as_str()))
        },
        None => no_violations(),
    }
}

/// What one element of CREATE TABLE yields: a violation for a TIMESTAMP
/// column.
pub open spec fn timestamp_elem(table: Seq<char>, e: TableElement) -> Seq<ViolationView> {
    match e {
        TableElement::Column(col) => if type_name_spec(col.type_names@) == "timestamp"@ {
            seq![
                violation_of(
                    "CREATE TABLE with TIMESTAMP"@,
                    timestamp_problem(col.name@),
                    timestamp_create_alternative(table, col.name@),
                ),
            ]
        } else {
            Seq::empty()
        },
        _ => Seq::empty(),
    }
}

pub(crate) fn timestamp_elem_one(table: &str, e: &TableElement) -> (r: Vec<Violation>)
    ensures
        views(r@) == timestamp_elem(table@, *e),
{
    match e {
        TableElement::Column(col) => {
            let t = column_type_name(col);
            if !is_timestamp_without_tz(t.as_str()) {
                return no_violations();
            }
            one_violation(create_create_table_violation(table, col.name.as_str()))
        },
        _ => no_violations(),
    }
}

impl Check for TimestampTypeCheck {
    open spec fn spec_name(&self) -> Seq<char> {
        "TimestampTypeCheck"@
    }

    open spec fn spec_check(&self, node: Statement, config: Config) -> Seq<ViolationView> {
        match node {
            Statement::AlterTable { relation, cmds } => gather(
                cmds@,
                cmd_rule_fn(CmdRule::TimestampType, opt_rv_name(relation), config),
            ),
            Statement::CreateTable { relation, elements } => gather(
                elements@,
                elem_rule_fn(ElemRule::TimestampType, opt_rv_name(relation)),
            ),
            _ => Seq::empty(),
        }
    }

    fn name(&self) -> (r: &'static str) {
        "TimestampTypeCheck"
    }

    fn check(&self, node: &Statement, config: &Config) -> (r: Vec<Violation>) {
        match node {
            Statement::AlterTable { relation, cmds } => {
                let table = opt_range_var_name(relation);
                cmd_rule_all(CmdRule::TimestampType, table.as_str(), cmds, config)
            },
            Statement::CreateTable { relation, elements } => {
                let table = opt_range_var_name(relation);
                elem_rule_all(ElemRule::TimestampType, table.as_str(), elements)
            },
            _ => no_violations(),
        }
    }
}

} // verus!
