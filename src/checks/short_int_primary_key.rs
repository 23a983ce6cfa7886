//! Primary keys of a short integer type: they run out of values, and widening
//! them later rewrites the table.
use vstd::prelude::*;
use crate::checks::{Check, CmdRule, ElemRule, cmd_rule_all, cmd_rule_fn, elem_rule_all, elem_rule_fn};
use crate::config::Config;
use crate::helpers::{
    cmd_column, cmd_constraint, cmd_def_as_column_def, cmd_def_as_constraint,
    column_has_constraint, column_type_name, extend, gather, has_constraint, is_short_integer,
    lemma_gather_all, lemma_gather_step, no_violations, one_violation, opt_range_var_name,
    opt_rv_name, short_integer_spec, type_name_spec,
};
use crate::messages::{
    make_short_int_alternative, make_short_int_problem, short_int_alternative, short_int_problem,
};
use crate::text::{owned, str_eq};
use crate::tree::{AlterTableCmd, ColumnDef, ConstraintKind, Statement, TableElement};
use crate::violation::{Violation, ViolationView, views, violation_of};

verus! {

/// Flags PRIMARY KEY columns of type SMALLINT, INT, SMALLSERIAL or SERIAL,
/// whether the key is declared on the column or as a separate constraint.
pub struct ShortIntegerPrimaryKeyCheck;

/// Whether a short integer type is a 2-byte one.
pub open spec fn two_byte(t: Seq<char>) -> bool {
    t == "int2"@ || t == "smallserial"@
}

/// The display name and the value limit of a short integer type.
pub open spec fn short_int_info_spec(t: Seq<char>) -> (Seq<char>, Seq<char>) {
    if two_byte(t) {
        ("SMALLINT"@, "~32,767"@)
    } else {
        ("INT"@, "~2.1 billion"@)
    }
}

/// The violation for a primary key column of a short integer type.
pub open spec fn short_int_violation(table: Seq<char>, column: Seq<char>, t: Seq<char>) -> ViolationView {
    let (display, limit) = short_int_info_spec(t);
    violation_of(
        "PRIMARY KEY with short integer type"@,
        short_int_problem(display, column, table, limit),
        short_int_alternative(table, column, display),
    )
}

/// What a primary key column yields: a violation when its type is short.
pub open spec fn short_int_col(table: Seq<char>, col: ColumnDef) -> Seq<ViolationView> {
    let t = type_name_spec(col.type_names@);
    if short_integer_spec(t) {
        seq![short_int_violation(table, col.name@, t)]
    } else {
        Seq::empty()
    }
}

/// The display name and limit of a short integer type.
pub fn short_integer_info(t: &str) -> (r: Option<(&'static str, &'static str)>)
    ensures
        r matches Some((d, l)) ==> short_integer_spec(t@) && (d@, l@) == short_int_info_spec(t@),
        r is None ==> !short_integer_spec(t@),
{
    if str_eq(t, "int2") || str_eq(t, "smallserial") {
        Some(("SMALLINT", "~32,767"))
    } else if str_eq(t, "int4") || str_eq(t, "serial") {
        Some(("INT", "~2.1 billion"))
    } else {
        None
    }
}

/// The violation for a short integer primary key column.
pub fn create_violation(table_name: &str, column_name: &str, display: &str, limit: &str) -> (r: Violation)
    ensures
        r@ == violation_of(
            "PRIMARY KEY with short integer type"@,
            short_int_problem(display@, column_name@, table_name@, limit@),
            short_int_alternative(table_name@, column_name@, display@),
        ),
{
    Violation::new(
        owned("PRIMARY KEY with short integer type"),
        make_short_int_problem(display, column_name, table_name, limit),
        make_short_int_alternative(table_name, column_name, display),
    )
}

/// The violation for a primary key column, when its type is short.
pub fn check_column_type(table_name: &str, col: &ColumnDef) -> (r: Vec<Violation>)
    ensures
        views(r@) == short_int_col(table_name@, *col),
{
    let t = column_type_name(col);
    if !is_short_integer(t.as_str()) {
        return no_violations();
    }
    match short_integer_info(t.as_str()) {
        Some((d, l)) => one_violation(create_violation(table_name, col.name.as_str(), d, l)),
        None => no_violations(),
    }
}

/// What one command yields: a violation when it adds a column declared
/// PRIMARY KEY with a short integer type.
pub open spec fn short_int_inline_cmd(table: Seq<char>, cmd: AlterTableCmd) -> Seq<ViolationView> {
    match cmd_column(cmd) {
        Some(col) => if has_constraint(col, ConstraintKind::Primary) {
            short_int_col(table, col)
        } else {
            Seq::empty()
        },
        None => Seq::empty(),
    }
}

pub(crate) fn short_int_inline_cmd_one(table: &str, cmd: &AlterTableCmd) -> (r: Vec<Violation>)
    ensures
        views(r@) == short_int_inline_cmd(table@, *cmd),
{
    match cmd_def_as_column_def(cmd) {
        Some(col) => if column_has_constraint(col, ConstraintKind::Primary) {
            check_column_type(table, col)
        } else {
            no_violations()
        },
        None => no_violations(),
    }
}

/// What one element of CREATE TABLE yields: a violation for a column
/// declared PRIMARY KEY with a short integer type.
pub open spec fn short_int_inline_elem(table: Seq<char>, e: TableElement) -> Seq<ViolationView> {
    match e {
        TableElement::Column(col) => if has_constraint(col, ConstraintKind::Primary) {
            short_int_col(table, col)
        } else {
            Seq::empty()
        },
        _ => Seq::empty(),
    }
}

pub(crate) fn short_int_inline_elem_one(table: &str, e: &TableElement) -> (r: Vec<Violation>)
    ensures
        views(r@) == short_int_inline_elem(table@, *e),
{
    match e {
        TableElement::Column(col) => if column_has_constraint(col, ConstraintKind::Primary) {
            check_column_type(table, col)
        } else {
            no_violations()
        },
        _ => no_violations(),
    }
}

/// The first column of CREATE TABLE, from element `i` on, with the given name.
pub open spec fn find_elem_col(elements: Seq<TableElement>, name: Seq<char>, i: int) -> Option<ColumnDef>
    decreases elements.len() - i,
{
    if 0 <= i < elements.len() {
        match elements[i] {
            TableElement::Column(c) => if c.name@ == name {
                Some(c)
            } else {
                find_elem_col(elements, name, i + 1)
            },
            _ => find_elem_col(elements, name, i + 1),
        }
    } else {
        None
    }
}

/// The first column that a command of ALTER TABLE, from command `i` on,
/// defines with the given name.
pub open spec fn find_cmd_col(cmds: Seq<AlterTableCmd>, name: Seq<char>, i: int) -> Option<ColumnDef>
    decreases cmds.len() - i,
{
    if 0 <= i < cmds.len() {
        match cmd_column(cmds[i]) {
            Some(c) => if c.name@ == name {
                Some(c)
            } else {
                find_cmd_col(cmds, name, i + 1)
            },
            None => find_cmd_col(cmds, name, i + 1),
        }
    } else {
        None
    }
}

/// What one key column of a PRIMARY KEY of CREATE TABLE yields.
pub open spec fn key_fn_elems(table: Seq<char>, elements: Seq<TableElement>) -> spec_fn(String) -> Seq<ViolationView> {
    |k: String| match find_elem_col(elements, k@, 0) {
        Some(col) => short_int_col(table, col),
        None => Seq::empty(),
    }
}

/// What one key column of an ADD PRIMARY KEY yields.
pub open spec fn key_fn_cmds(table: Seq<char>, cmds: Seq<AlterTableCmd>) -> spec_fn(String) -> Seq<ViolationView> {
    |k: String| match find_cmd_col(cmds, k@, 0) {
        Some(col) => short_int_col(table, col),
        None => Seq::empty(),
    }
}

/// What a PRIMARY KEY element of CREATE TABLE yields: for each key column
/// that the table defines, a violation when its type is short.
pub open spec fn pk_elem(table: Seq<char>, elements: Seq<TableElement>, e: TableElement) -> Seq<ViolationView> {
    match e {
        TableElement::Constraint(c) => if c.kind == ConstraintKind::Primary {
            gather(c.keys@, key_fn_elems(table, elements))
        } else {
            Seq::empty()
        },
        _ => Seq::empty(),
    }
}

/// [`pk_elem`] as a function of one element.
pub open spec fn pk_elem_fn(table: Seq<char>, elements: Seq<TableElement>) -> spec_fn(TableElement) -> Seq<ViolationView> {
    |e: TableElement| pk_elem(table, elements, e)
}

/// What an ADD PRIMARY KEY command yields: for each key column that a command
/// of the same statement adds, a violation when its type is short.
pub open spec fn pk_cmd(table: Seq<char>, cmds: Seq<AlterTableCmd>, cmd: AlterTableCmd) -> Seq<ViolationView> {
    match cmd_constraint(cmd) {
        Some(c) => if c.kind == ConstraintKind::Primary {
            gather(c.keys@, key_fn_cmds(table, cmds))
        } else {
            Seq::empty()
        },
        None => Seq::empty(),
    }
}

/// [`pk_cmd`] as a function of one command.
pub open spec fn pk_cmd_fn(table: Seq<char>, cmds: Seq<AlterTableCmd>) -> spec_fn(AlterTableCmd) -> Seq<ViolationView> {
    |c: AlterTableCmd| pk_cmd(table, cmds, c)
}

/// What the check finds in a statement.
pub open spec fn short_int_spec(node: Statement, config: Config) -> Seq<ViolationView> {
    match node {
        Statement::CreateTable { relation, elements } => gather(
            elements@,
            elem_rule_fn(ElemRule::ShortIntInline, opt_rv_name(relation)),
        ) + gather(elements@, pk_elem_fn(opt_rv_name(relation), elements@)),
        Statement::AlterTable { relation, cmds } => gather(
            cmds@,
            cmd_rule_fn(CmdRule::ShortIntInline, opt_rv_name(relation), config),
        ) + gather(cmds@, pk_cmd_fn(opt_rv_name(relation), cmds@)),
        _ => Seq::empty(),
    }
}

fn find_elem_column<'a>(elements: &'a Vec<TableElement>, name: &str) -> (r: Option<&'a ColumnDef>)
    ensures
        r matches Some(c) ==> find_elem_col(elements@, name@, 0) == Some(*c),
        r is None ==> find_elem_col(elements@, name@, 0) is None,
{
    let mut i: usize = 0;
    while i < elements.len()
        invariant
            i <= elements.len(),
            find_elem_col(elements@, name@, 0) == find_elem_col(elements@, name@, i as int),
        decreases elements.len() - i,
    {
        match &elements[i] {
            TableElement::Column(c) => {
                if str_eq(c.name.as_str(), name) {
                    return Some(c);
                }
            },
            _ => {},
        }
        i = i + 1;
    }
    None
}

fn find_cmd_column<'a>(cmds: &'a Vec<AlterTableCmd>, name: &str) -> (r: Option<&'a ColumnDef>)
    ensures
        r matches Some(c) ==> find_cmd_col(cmds@, name@, 0) == Some(*c),
        r is None ==> find_cmd_col(cmds@, name@, 0) is None,
{
    let mut i: usize = 0;
    while i < cmds.len()
        invariant
            i <= cmds.len(),
            find_cmd_col(cmds@, name@, 0) == find_cmd_col(cmds@, name@, i as int),
        decreases cmds.len() - i,
    {
        match cmd_def_as_column_def(&cmds[i]) {
            Some(c) => {
                if str_eq(c.name.as_str(), name) {
                    return Some(c);
                }
            },
            None => {},
        }
        i = i + 1;
    }
    None
}

fn key_columns_elems(table: &str, keys: &Vec<String>, elements: &Vec<TableElement>) -> (r: Vec<Violation>)
    ensures
        views(r@) == gather(keys@, key_fn_elems(table@, elements@)),
{
    let ghost f = key_fn_elems(table@, elements@);
    let mut out: Vec<Violation> = Vec::new();
    let mut i: usize = 0;
    assert(views(out@) =~= gather(keys@.subrange(0, 0), f));
    while i < keys.len()
        invariant
            i <= keys.len(),
            views(out@) == gather(keys@.subrange(0, i as int), f),
            f == key_fn_elems(table@, elements@),
        decreases keys.len() - i,
    {
        proof {
            lemma_gather_step(keys@, i as int, f);
        }
        let more = match find_elem_column(elements, keys[i].as_str()) {
            Some(col) => check_column_type(table, col),
            None => no_violations(),
        };
        extend(&mut out, more);
        i = i + 1;
    }
    proof {
        lemma_gather_all(keys@, f);
    }
    out
}

fn key_columns_cmds(table: &str, keys: &Vec<String>, cmds: &Vec<AlterTableCmd>) -> (r: Vec<Violation>)
    ensures
        views(r@) == gather(keys@, key_fn_cmds(table@, cmds@)),
{
    let ghost f = key_fn_cmds(table@, cmds@);
    let mut out: Vec<Violation> = Vec::new();
    let mut i: usize = 0;
    assert(views(out@) =~= gather(keys@.subrange(0, 0), f));
    while i < keys.len()
        invariant
            i <= keys.len(),
            views(out@) == gather(keys@.subrange(0, i as int), f),
            f == key_fn_cmds(table@, cmds@),
        decreases keys.len() - i,
    {
        proof {
            lemma_gather_step(keys@, i as int, f);
        }
        let more = match find_cmd_column(cmds, keys[i].as_str()) {
            Some(col) => check_column_type(table, col),
            None => no_violations(),
        };
        extend(&mut out, more);
        i = i + 1;
    }
    proof {
        lemma_gather_all(keys@, f);
    }
    out
}

/// The violations of the PRIMARY KEY elements of CREATE TABLE.
pub fn check_pk_key_columns(table: &str, elements: &Vec<TableElement>) -> (r: Vec<Violation>)
    ensures
        views(r@) == gather(elements@, pk_elem_fn(table@, elements@)),
{
    let ghost f = pk_elem_fn(table@, elements@);
    let mut out: Vec<Violation> = Vec::new();
    let mut i: usize = 0;
    assert(views(out@) =~= gather(elements@.subrange(0, 0), f));
    while i < elements.len()
        invariant
            i <= elements.len(),
            views(out@) == gather(elements@.subrange(0, i as int), f),
            f == pk_elem_fn(table@, elements@),
        decreases elements.len() - i,
    {
        proof {
            lemma_gather_step(elements@, i as int, f);
        }
        let more = match &elements[i] {
            TableElement::Constraint(c) => if c.kind == ConstraintKind::Primary {
                key_columns_elems(table, &c.keys, elements)
            } else {
                no_violations()
            },
            _ => no_violations(),
        };
        extend(&mut out, more);
        i = i + 1;
    }
    proof {
        lemma_gather_all(elements@, f);
    }
    out
}

/// The violations of the ADD PRIMARY KEY commands of ALTER TABLE.
fn check_pk_cmds(table: &str, cmds: &Vec<AlterTableCmd>) -> (r: Vec<Violation>)
    ensures
        views(r@) == gather(cmds@, pk_cmd_fn(table@, cmds@)),
{
    let ghost f = pk_cmd_fn(table@, cmds@);
    let mut out: Vec<Violation> = Vec::new();
    let mut i: usize = 0;
    assert(views(out@) =~= gather(cmds@.subrange(0, 0), f));
    while i < cmds.len()
        invariant
            i <= cmds.len(),
            views(out@) == gather(cmds@.subrange(0, i as int), f),
            f == pk_cmd_fn(table@, cmds@),
        decreases cmds.len() - i,
    {
        proof {
            lemma_gather_step(cmds@, i as int, f);
        }
        let more = match cmd_def_as_constraint(&cmds[i]) {
            Some(c) => if c.kind == ConstraintKind::Primary {
                key_columns_cmds(table, &c.keys, cmds)
            } else {
                no_violations()
            },
            None => no_violations(),
        };
        extend(&mut out, more);
        i = i + 1;
    }
    proof {
        lemma_gather_all(cmds@, f);
    }
    out
}

impl Check for ShortIntegerPrimaryKeyCheck {
    open spec fn spec_name(&self) -> Seq<char> {
        "ShortIntegerPrimaryKeyCheck"@
    }

    open spec fn spec_check(&self, node: Statement, config: Config) -> Seq<ViolationView> {
        short_int_spec(node, config)
    }

    fn name(&self) -> (r: &'static str) {
        "ShortIntegerPrimaryKeyCheck"
    }

    fn check(&self, node: &Statement, config: &Config) -> (r: Vec<Violation>) {
        match node {
            Statement::CreateTable { relation, elements } => {
                let table = opt_range_var_name(relation);
                let mut out = elem_rule_all(ElemRule::ShortIntInline, table.as_str(), elements);
                let more = check_pk_key_columns(table.as_str(), elements);
                extend(&mut out, more);
                out
            },
            Statement::AlterTable { relation, cmds } => {
                let table = opt_range_var_name(relation);
                let mut out = cmd_rule_all(CmdRule::ShortIntInline, table.as_str(), cmds, config);
                let more = check_pk_cmds(table.as_str(), cmds);
                extend(&mut out, more);
                out
            },
            _ => no_violations(),
        }
    }
}

} // verus!
