//! DROP of a database, an index or a table: one violation per dropped object.
use vstd::prelude::*;
use vstd::string::StringExecFns;
use crate::checks::{Check, DropRule, drop_rule_all, drop_rule_fn};
use crate::config::Config;
use crate::helpers::{gather, if_exists_clause, no_violations, one_violation};
use crate::messages::{
    drop_database_alternative, drop_database_problem, drop_index_alternative, drop_index_problem,
    drop_table_alternative, drop_table_problem, make_drop_database_alternative,
    make_drop_database_problem, make_drop_index_alternative, make_drop_index_problem,
    make_drop_table_alternative, make_drop_table_problem,
};
use crate::text::{join, join_spec, owned, strs};
use crate::tree::{DropStmt, ObjectKind, Statement};
use crate::violation::{Violation, ViolationView, views, violation_of};

verus! {

/// Flags DROP DATABASE: it deletes everything and needs exclusive access.
pub struct DropDatabaseCheck;

/// Flags DROP INDEX without CONCURRENTLY.
pub struct DropIndexCheck;

/// Flags DROP TABLE: irreversible once committed.
pub struct DropTableCheck;

/// The IF EXISTS clause as SQL text.
pub open spec fn if_exists_text(if_exists: bool) -> Seq<char> {
    if if_exists { " IF EXISTS"@ } else { ""@ }
}

/// The CASCADE / RESTRICT modifiers of a DROP, as SQL text.
pub open spec fn drop_modifiers(d: DropStmt) -> Seq<char> {
    (if d.cascade { " CASCADE"@ } else { ""@ }) + (if d.restrict { " RESTRICT"@ } else { ""@ })
}

/// What a rule finds in one object of a DROP.
pub open spec fn drop_object_spec(rule: DropRule, d: DropStmt, o: Vec<String>) -> Seq<ViolationView> {
    let name = join_spec(strs(o@), "."@);
    match rule {
        DropRule::Database => if d.kind == ObjectKind::Database {
            seq![
                violation_of(
                    "DROP DATABASE"@,
                    drop_database_problem(name),
                    drop_database_alternative(if_exists_text(d.if_exists), name),
                ),
            ]
        } else {
            Seq::empty()
        },
        DropRule::Index => if d.kind == ObjectKind::Index && !d.concurrent {
            seq![
                violation_of(
                    "DROP INDEX without CONCURRENTLY"@,
                    drop_index_problem(name, if_exists_text(d.if_exists)),
                    drop_index_alternative(if_exists_text(d.if_exists), name),
                ),
            ]
        } else {
            Seq::empty()
        },
        DropRule::Table => if d.kind == ObjectKind::Table {
            seq![
                violation_of(
                    "DROP TABLE"@,
                    drop_table_problem(name),
                    drop_table_alternative(if_exists_text(d.if_exists), name, drop_modifiers(d)),
                ),
            ]
        } else {
            Seq::empty()
        },
    }
}

pub(crate) fn drop_object_one(rule: DropRule, d: &DropStmt, o: &Vec<String>) -> (r: Vec<Violation>)
    ensures
        views(r@) == drop_object_spec(rule, *d, *o),
{
    let name = join(o, ".");
    let ie = if_exists_clause(d.if_exists);
    match rule {
        DropRule::Database => {
            if d.kind != ObjectKind::Database {
                return no_violations();
            }
            one_violation(
                Violation::new(
                    owned("DROP DATABASE"),
                    make_drop_database_problem(name.as_str()),
                    make_drop_database_alternative(ie, name.as_str()),
                ),
            )
        },
        DropRule::Index => {
            if d.kind != ObjectKind::Index || d.concurrent {
                return no_violations();
            }
            one_violation(
                Violation::new(
                    owned("DROP INDEX without CONCURRENTLY"),
                    make_drop_index_problem(name.as_str(), ie),
                    make_drop_index_alternative(ie, name.as_str()),
                ),
            )
        },
        DropRule::Table => {
            if d.kind != ObjectKind::Table {
                return no_violations();
            }
            let cascade = if d.cascade { " CASCADE" } else { "" };
            let restrict = if d.restrict { " RESTRICT" } else { "" };
            let mut modifiers = owned(cascade);
            modifiers.append(restrict);
            one_violation(
                Violation::new(
                    owned("DROP TABLE"),
                    make_drop_table_problem(name.as_str()),
                    make_drop_table_alternative(ie, name.as_str(), modifiers.as_str()),
                ),
            )
        },
    }
}

/// What a drop rule finds in a statement: one violation per object of a DROP
/// of the rule's kind.
pub open spec fn drop_check_spec(rule: DropRule, node: Statement) -> Seq<ViolationView> {
    match node {
        Statement::Drop(d) => gather(d.objects@, drop_rule_fn(rule, d)),
        _ => Seq::empty(),
    }
}

fn drop_check(rule: DropRule, node: &Statement) -> (r: Vec<Violation>)
    ensures
        views(r@) == drop_check_spec(rule, *node),
{
    match node {
        Statement::Drop(d) => drop_rule_all(rule, d),
        _ => no_violations(),
    }
}

impl Check for DropDatabaseCheck {
    open spec fn spec_name(&self) -> Seq<char> {
        "DropDatabaseCheck"@
    }

    open spec fn spec_check(&self, node: Statement, config: Config) -> Seq<ViolationView> {
        drop_check_spec(DropRule::Database, node)
    }

    fn name(&self) -> (r: &'static str) {
        "DropDatabaseCheck"
    }

    fn check(&self, node: &Statement, config: &Config) -> (r: Vec<Violation>) {
        drop_check(DropRule::Database, node)
    }
}

impl Check for DropIndexCheck {
    open spec fn spec_name(&self) -> Seq<char> {
        "DropIndexCheck"@
    }

    open spec fn spec_check(&self, node: Statement, config: Config) -> Seq<ViolationView> {
        drop_check_spec(DropRule::Index, node)
    }

    fn name(&self) -> (r: &'static str) {
        "DropIndexCheck"
    }

    fn check(&self, node: &Statement, config: &Config) -> (r: Vec<Violation>) {
        drop_check(DropRule::Index, node)
    }
}

impl Check for DropTableCheck {
    open spec fn spec_name(&self) -> Seq<char> {
        "DropTableCheck"@
    }

    open spec fn spec_check(&self, node: Statement, config: Config) -> Seq<ViolationView> {
        drop_check_spec(DropRule::Table, node)
    }

    fn name(&self) -> (r: &'static str) {
        "DropTableCheck"
    }

    fn check(&self, node: &Statement, config: &Config) -> (r: Vec<Violation>) {
        drop_check(DropRule::Table, node)
    }
}

} // verus!
