//! The built-in checks: independent, stateless rules over one statement.
use vstd::prelude::*;
use crate::config::Config;
use crate::helpers::{extend, gather, lemma_gather_all, lemma_gather_step};
use crate::tree::{AlterTableCmd, DropStmt, Statement, TableElement};
use crate::violation::{Violation, ViolationView, views};

pub mod add_column;
pub mod add_index;
pub mod add_primary_key;
pub mod add_serial_column;
pub mod add_unique_constraint;
pub mod alter_column_type;
pub mod char_type;
pub mod drop_column;
pub mod drop_objects;
pub mod generated_column;
pub mod reindex;
pub mod short_int_primary_key;
pub mod timestamp_type;
pub mod truncate_table;
pub mod unnamed_constraint;
pub mod wide_index;

pub use add_column::AddColumnCheck;
pub use add_index::AddIndexCheck;
pub use add_primary_key::AddPrimaryKeyCheck;
pub use add_serial_column::AddSerialColumnCheck;
pub use add_unique_constraint::AddUniqueConstraintCheck;
pub use alter_column_type::AlterColumnTypeCheck;
pub use char_type::CharTypeCheck;
pub use drop_column::DropColumnCheck;
pub use drop_objects::{DropDatabaseCheck, DropIndexCheck, DropTableCheck};
pub use generated_column::GeneratedColumnCheck;
pub use reindex::ReindexCheck;
pub use short_int_primary_key::ShortIntegerPrimaryKeyCheck;
pub use timestamp_type::TimestampTypeCheck;
pub use truncate_table::TruncateTableCheck;
pub use unnamed_constraint::UnnamedConstraintCheck;
pub use wide_index::WideIndexCheck;

use add_column::{add_column_cmd, add_column_one};
use add_primary_key::{add_pk_cmd, add_pk_one};
use add_serial_column::{add_serial_cmd, add_serial_one};
use add_unique_constraint::{add_unique_cmd, add_unique_one};
use alter_column_type::{alter_type_cmd, alter_type_one};
use char_type::{char_cmd, char_cmd_one, char_elem, char_elem_one};
use drop_column::{drop_column_cmd, drop_column_one};
use drop_objects::{drop_object_spec, drop_object_one};
use generated_column::{generated_cmd, generated_one};
use short_int_primary_key::{short_int_inline_cmd, short_int_inline_cmd_one, short_int_inline_elem, short_int_inline_elem_one};
use timestamp_type::{timestamp_cmd, timestamp_cmd_one, timestamp_elem, timestamp_elem_one};
use unnamed_constraint::{unnamed_cmd, unnamed_one};

verus! {

/// A named rule over one statement. What it finds is a function of the
/// statement and the configuration alone.
pub trait Check {
    /// The check's name, used to disable it in the configuration.
    spec fn spec_name(&self) -> Seq<char>;

    /// What the check finds in a statement under a configuration.
    spec fn spec_check(&self, node: Statement, config: Config) -> Seq<ViolationView>;

    /// The check's name.
    fn name(&self) -> (r: &'static str)
        ensures
            r@ == self.spec_name(),
    ;

    /// The violations that the check finds in the statement.
    fn check(&self, node: &Statement, config: &Config) -> (r: Vec<Violation>)
        ensures
            views(r@) == self.spec_check(*node, *config),
    ;
}

/// The rules that judge each ALTER TABLE command on its own.
#[derive(PartialEq, Eq, Structural, Clone, Copy, Debug)]
pub enum CmdRule {
    AddColumn,
    AddPrimaryKey,
    AddSerialColumn,
    AddUniqueConstraint,
    AlterColumnType,
    CharType,
    DropColumn,
    GeneratedColumn,
    ShortIntInline,
    TimestampType,
    UnnamedConstraint,
}

/// What a rule finds in one ALTER TABLE command of the given table.
pub open spec fn cmd_rule_spec(rule: CmdRule, table: Seq<char>, cmd: AlterTableCmd, config: Config) -> Seq<ViolationView> {
    match rule {
        CmdRule::AddColumn => add_column_cmd(table, cmd, config),
        CmdRule::AddPrimaryKey => add_pk_cmd(table, cmd),
        CmdRule::AddSerialColumn => add_serial_cmd(table, cmd),
        CmdRule::AddUniqueConstraint => add_unique_cmd(table, cmd),
        CmdRule::AlterColumnType => alter_type_cmd(table, cmd),
        CmdRule::CharType => char_cmd(table, cmd),
        CmdRule::DropColumn => drop_column_cmd(table, cmd),
        CmdRule::GeneratedColumn => generated_cmd(table, cmd),
        CmdRule::ShortIntInline => short_int_inline_cmd(table, cmd),
        CmdRule::TimestampType => timestamp_cmd(table, cmd),
        CmdRule::UnnamedConstraint => unnamed_cmd(table, cmd),
    }
}

/// A rule, as a function of one command.
pub open spec fn cmd_rule_fn(rule: CmdRule, table: Seq<char>, config: Config) -> spec_fn(AlterTableCmd) -> Seq<ViolationView> {
    |c: AlterTableCmd| cmd_rule_spec(rule, table, c, config)
}

fn cmd_rule_one(rule: CmdRule, table: &str, cmd: &AlterTableCmd, config: &Config) -> (r: Vec<Violation>)
    ensures
        views(r@) == cmd_rule_spec(rule, table@, *cmd, *config),
{
    match rule {
        CmdRule::AddColumn => add_column_one(table, cmd, config),
        CmdRule::AddPrimaryKey => add_pk_one(table, cmd),
        CmdRule::AddSerialColumn => add_serial_one(table, cmd),
        CmdRule::AddUniqueConstraint => add_unique_one(table, cmd),
        CmdRule::AlterColumnType => alter_type_one(table, cmd),
        CmdRule::CharType => char_cmd_one(table, cmd),
        CmdRule::DropColumn => drop_column_one(table, cmd),
        CmdRule::GeneratedColumn => generated_one(table, cmd),
        CmdRule::ShortIntInline => short_int_inline_cmd_one(table, cmd),
        CmdRule::TimestampType => timestamp_cmd_one(table, cmd),
        CmdRule::UnnamedConstraint => unnamed_one(table, cmd),
    }
}

/// What a rule finds in the commands of an ALTER TABLE, command by command.
pub fn cmd_rule_all(rule: CmdRule, table: &str, cmds: &Vec<AlterTableCmd>, config: &Config) -> (r: Vec<Violation>)
    ensures
        views(r@) == gather(cmds@, cmd_rule_fn(rule, table@, *config)),
{
    let ghost f = cmd_rule_fn(rule, table@, *config);
    let mut out: Vec<Violation> = Vec::new();
    let mut i: usize = 0;
    assert(views(out@) =~= gather(cmds@.subrange(0, 0), f));
    while i < cmds.len()
        invariant
            i <= cmds.len(),
            views(out@) == gather(cmds@.subrange(0, i as int), f),
            f == cmd_rule_fn(rule, table@, *config),
        decreases cmds.len() - i,
    {
        proof {
            lemma_gather_step(cmds@, i as int, f);
        }
        let more = cmd_rule_one(rule, table, &cmds[i], config);
        extend(&mut out, more);
        i = i + 1;
    }
    proof {
        lemma_gather_all(cmds@, f);
    }
    out
}

/// The rules that judge each element of CREATE TABLE on its own.
#[derive(PartialEq, Eq, Structural, Clone, Copy, Debug)]
pub enum ElemRule {
    CharType,
    ShortIntInline,
    TimestampType,
}

/// What a rule finds in one element of CREATE TABLE of the given table.
pub open spec fn elem_rule_spec(rule: ElemRule, table: Seq<char>, e: TableElement) -> Seq<ViolationView> {
    match rule {
        ElemRule::CharType => char_elem(table, e),
        ElemRule::ShortIntInline => short_int_inline_elem(table, e),
        ElemRule::TimestampType => timestamp_elem(table, e),
    }
}

/// A rule, as a function of one element.
pub open spec fn elem_rule_fn(rule: ElemRule, table: Seq<char>) -> spec_fn(TableElement) -> Seq<ViolationView> {
    |e: TableElement| elem_rule_spec(rule, table, e)
}

fn elem_rule_one(rule: ElemRule, table: &str, e: &TableElement) -> (r: Vec<Violation>)
    ensures
        views(r@) == elem_rule_spec(rule, table@, *e),
{
    match rule {
        ElemRule::CharType => char_elem_one(table, e),
        ElemRule::ShortIntInline => short_int_inline_elem_one(table, e),
        ElemRule::TimestampType => timestamp_elem_one(table, e),
    }
}

/// What a rule finds in the elements of CREATE TABLE, element by element.
pub fn elem_rule_all(rule: ElemRule, table: &str, elements: &Vec<TableElement>) -> (r: Vec<Violation>)
    ensures
        views(r@) == gather(elements@, elem_rule_fn(rule, table@)),
{
    let ghost f = elem_rule_fn(rule, table@);
    let mut out: Vec<Violation> = Vec::new();
    let mut i: usize = 0;
    assert(views(out@) =~= gather(elements@.subrange(0, 0), f));
    while i < elements.len()
        invariant
            i <= elements.len(),
            views(out@) == gather(elements@.subrange(0, i as int), f),
            f == elem_rule_fn(rule, table@),
        decreases elements.len() - i,
    {
        proof {
            lemma_gather_step(elements@, i as int, f);
        }
        let more = elem_rule_one(rule, table, &elements[i]);
        extend(&mut out, more);
        i = i + 1;
    }
    proof {
        lemma_gather_all(elements@, f);
    }
    out
}

/// The rules that judge each object of a DROP on its own.
#[derive(PartialEq, Eq, Structural, Clone, Copy, Debug)]
pub enum DropRule {
    Database,
    Index,
    Table,
}

/// A rule, as a function of one dropped object.
pub open spec fn drop_rule_fn(rule: DropRule, d: DropStmt) -> spec_fn(Vec<String>) -> Seq<ViolationView> {
    |o: Vec<String>| drop_object_spec(rule, d, o)
}

/// What a rule finds in the objects of a DROP, object by object.
pub fn drop_rule_all(rule: DropRule, d: &DropStmt) -> (r: Vec<Violation>)
    ensures
        views(r@) == gather(d.objects@, drop_rule_fn(rule, *d)),
{
    let ghost f = drop_rule_fn(rule, *d);
    let mut out: Vec<Violation> = Vec::new();
    let mut i: usize = 0;
    assert(views(out@) =~= gather(d.objects@.subrange(0, 0), f));
    while i < d.objects.len()
        invariant
            i <= d.objects.len(),
            views(out@) == gather(d.objects@.subrange(0, i as int), f),
            f == drop_rule_fn(rule, *d),
        decreases d.objects.len() - i,
    {
        proof {
            lemma_gather_step(d.objects@, i as int, f);
        }
        let more = drop_object_one(rule, d, &d.objects[i]);
        extend(&mut out, more);
        i = i + 1;
    }
    proof {
        lemma_gather_all(d.objects@, f);
    }
    out
}

} // verus!
