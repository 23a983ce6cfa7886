//! Fixed-length CHAR columns: padded with spaces, rarely what is meant. A
//! best-practice warning without locking impact.
use vstd::prelude::*;
use crate::checks::{Check, CmdRule, ElemRule, cmd_rule_all, cmd_rule_fn, elem_rule_all, elem_rule_fn};
use crate::config::Config;
use crate::helpers::{
    cmd_column, cmd_def_as_column_def, column_type_name, gather, no_violations, one_violation,
    opt_range_var_name, opt_rv_name, type_name_spec,
};
use crate::text::owned;
use crate::tree::{AlterKind, AlterTableCmd, ColumnDef, Statement, TableElement};
use crate::violation::{Violation, ViolationView, views, violation_of};
use crate::helpers::is_char_type;
use crate::messages::{
    char_alter_alternative, char_create_alternative, char_problem, make_char_alter_alternative,
    make_char_create_alternative, make_char_problem,
};
use crate::text::{decimal, decimal_spec};

verus! {

/// Flags CHAR columns in CREATE TABLE and ADD COLUMN.
pub struct CharTypeCheck;

/// The declared length of a CHAR column; 1 when none is declared.
pub open spec fn char_length_spec(col: ColumnDef) -> Seq<char> {
    if col.type_mods@.len() > 0 {
        decimal_spec(col.type_mods@[0] as nat)
    } else {
        "1"@
    }
}

/// The declared length of a CHAR column, as text.
pub fn get_char_length(col: &ColumnDef) -> (r: String)
    ensures
        r@ == char_length_spec(*col),
{
    if col.type_mods.len() > 0 {
        decimal(col.type_mods[0])
    } else {
        owned("1")
    }
}

/// What one command yields: a violation when it adds a CHAR column.
pub open spec fn char_cmd(table: Seq<char>, cmd: AlterTableCmd) -> Seq<ViolationView> {
    match cmd_column(cmd) {
        Some(col) => if cmd.kind == AlterKind::AddColumn && type_name_spec(col.type_names@)
            == "bpchar"@ {
            seq![
                violation_of(
                    "ADD COLUMN with CHAR type"@,
                    char_problem(col.name@, char_length_spec(col)),
                    char_alter_alternative(table, col.name@, char_length_spec(col)),
                ),
            ]
        } else {
            Seq::empty()
        },
        None => Seq::empty(),
    }
}

pub(crate) fn char_cmd_one(table: &str, cmd: &AlterTableCmd) -> (r: Vec<Violation>)
    ensures
        views(r@) == char_cmd(table@, *cmd),
{
    if cmd.kind != AlterKind::AddColumn {
        return no_violations();
    }
    match cmd_def_as_column_def(cmd) {
        Some(col) => {
            let t = column_type_name(col);
            if !is_char_type(t.as_str()) {
                return no_violations();
            }
            let len = get_char_length(col);
            one_violation(
                Violation::new(
                    owned("ADD COLUMN with CHAR type"),
                    make_char_problem(col.name.as_str(), len.as_str()),
                    make_char_alter_alternative(table, col.name.as_str(), len.as_str()),
                ),
            )
        },
        None => no_violations(),
    }
}

/// What one element of CREATE TABLE yields: a violation for a CHAR column.
pub open spec fn char_elem(table: Seq<char>, e: TableElement) -> Seq<ViolationView> {
    match e {
        TableElement::Column(col) => if type_name_spec(col.type_names@) == "bpchar"@ {
            seq![
                violation_of(
                    "CREATE TABLE with CHAR column"@,
                    char_problem(col.name@, char_length_spec(col)),
                    char_create_alternative(table, col.name@, char_length_spec(col)),
                ),
            ]
        } else {
            Seq::empty()
        },
        _ => Seq::empty(),
    }
}

pub(crate) fn char_elem_one(table: &str, e: &TableElement) -> (r: Vec<Violation>)
    ensures
        views(r@) == char_elem(table@, *e),
{
    match e {
        TableElement::Column(col) => {
            let t = column_type_name(col);
            if !is_char_type(t.as_str()) {
                return no_violations();
            }
            let len = get_char_length(col);
            one_violation(
                Violation::new(
                    owned("CREATE TABLE with CHAR column"),
                    make_char_problem(col.name.as_str(), len.as_str()),
                    make_char_create_alternative(table, col.name.as_str(), len.as_str()),
                ),
            )
        },
        _ => no_violations(),
    }
}

impl Check for CharTypeCheck {
    open spec fn spec_name(&self) -> Seq<char> {
        "CharTypeCheck"@
    }

    open spec fn spec_check(&self, node: Statement, config: Config) -> Seq<ViolationView> {
        match node {
            Statement::AlterTable { relation, cmds } => gather(
                cmds@,
                cmd_rule_fn(CmdRule::CharType, opt_rv_name(relation), config),
            ),
            Statement::CreateTable { relation, elements } => gather(
                elements@,
                elem_rule_fn(ElemRule::CharType, opt_rv_name(relation)),
            ),
            _ => Seq::empty(),
        }
    }

    fn name(&self) -> (r: &'static str) {
        "CharTypeCheck"
    }

    fn check(&self, node: &Statement, config: &Config) -> (r: Vec<Violation>) {
        match node {
            Statement::AlterTable { relation, cmds } => {
                let table = opt_range_var_name(relation);
                cmd_rule_all(CmdRule::CharType, table.as_str(), cmds, config)
            },
            Statement::CreateTable { relation, elements } => {
                let table = opt_range_var_name(relation);
                elem_rule_all(ElemRule::CharType, table.as_str(), elements)
            },
            _ => no_violations(),
        }
    }
}

} // verus!
