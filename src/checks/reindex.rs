//! REINDEX without CONCURRENTLY: rebuilds under an ACCESS EXCLUSIVE lock.
use vstd::prelude::*;
use crate::checks::Check;
use crate::config::Config;
use crate::helpers::{no_violations, one_violation};
use crate::messages::{
    make_reindex_alternative, make_reindex_problem, reindex_alternative, reindex_problem,
};
use crate::text::{owned, str_eq, strs};
use crate::tree::{ReindexKind, ReindexStmt, Statement};
use crate::violation::{Violation, ViolationView, views, violation_of};

verus! {

/// Flags REINDEX of an index, table, schema or database without CONCURRENTLY.
pub struct ReindexCheck;

/// The SQL keyword of a REINDEX target kind; `None` for SYSTEM, which cannot
/// be rebuilt concurrently.
pub open spec fn reindex_kind_text(kind: ReindexKind) -> Option<Seq<char>> {
    match kind {
        ReindexKind::Index => Some("INDEX"@),
        ReindexKind::Table => Some("TABLE"@),
        ReindexKind::Schema => Some("SCHEMA"@),
        ReindexKind::Database => Some("DATABASE"@),
        ReindexKind::System => None,
    }
}

/// The lower-case word of a REINDEX target kind.
pub open spec fn reindex_kind_word(kind: ReindexKind) -> Seq<char> {
    match kind {
        ReindexKind::Index => "index"@,
        ReindexKind::Table => "table"@,
        ReindexKind::Schema => "schema"@,
        ReindexKind::Database => "database"@,
        ReindexKind::System => "system"@,
    }
}

/// The name of what REINDEX rebuilds.
pub open spec fn reindex_target(r: ReindexStmt) -> Seq<char> {
    match r.kind {
        ReindexKind::Index | ReindexKind::Table => match r.relation {
            Some(rv) => rv.relname@,
            None => Seq::empty(),
        },
        _ => r.name@,
    }
}

/// Whether the options of REINDEX include CONCURRENTLY.
pub open spec fn concurrently_spec(params: Seq<String>) -> bool {
    strs(params).contains("concurrently"@)
}

/// One violation for a REINDEX that may be concurrent and is not.
pub open spec fn reindex_spec(node: Statement) -> Seq<ViolationView> {
    match node {
        Statement::Reindex(r) => if reindex_kind_text(r.kind) is Some && !concurrently_spec(
            r.params@,
        ) {
            let k = reindex_kind_text(r.kind)->Some_0;
            seq![
                violation_of(
                    "REINDEX without CONCURRENTLY"@,
                    reindex_problem(k, reindex_target(r), reindex_kind_word(r.kind)),
                    reindex_alternative(k, reindex_target(r)),
                ),
            ]
        } else {
            Seq::empty()
        },
        _ => Seq::empty(),
    }
}

/// The SQL keyword of a REINDEX target kind, if it can be rebuilt concurrently.
pub fn reindex_type_name(kind: ReindexKind) -> (r: Option<&'static str>)
    ensures
        r matches Some(s) ==> reindex_kind_text(kind) == Some(s@),
        r is None ==> reindex_kind_text(kind) is None,
{
    match kind {
        ReindexKind::Index => Some("INDEX"),
        ReindexKind::Table => Some("TABLE"),
        ReindexKind::Schema => Some("SCHEMA"),
        ReindexKind::Database => Some("DATABASE"),
        ReindexKind::System => None,
    }
}

fn reindex_type_word(kind: ReindexKind) -> (r: &'static str)
    ensures
        r@ == reindex_kind_word(kind),
{
    match kind {
        ReindexKind::Index => "index",
        ReindexKind::Table => "table",
        ReindexKind::Schema => "schema",
        ReindexKind::Database => "database",
        ReindexKind::System => "system",
    }
}

/// Whether the options include CONCURRENTLY.
pub fn has_concurrently(params: &Vec<String>) -> (r: bool)
    ensures
        r == concurrently_spec(params@),
{
    let mut i: usize = 0;
    while i < params.len()
        invariant
            i <= params.len(),
            forall|j: int| 0 <= j < i ==> params@[j]@ != "concurrently"@,
        decreases params.len() - i,
    {
        if str_eq(params[i].as_str(), "concurrently") {
            assert(strs(params@)[i as int] == "concurrently"@);
            return true;
        }
        i = i + 1;
    }
    proof {
        if strs(params@).contains("concurrently"@) {
            let j = choose|j: int| 0 <= j < strs(params@).len() && strs(params@)[j] == "concurrently"@;
            assert(params@[j]@ == "concurrently"@);
        }
    }
    false
}

impl Check for ReindexCheck {
    open spec fn spec_name(&self) -> Seq<char> {
        "ReindexCheck"@
    }

    open spec fn spec_check(&self, node: Statement, config: Config) -> Seq<ViolationView> {
        reindex_spec(node)
    }

    fn name(&self) -> (r: &'static str) {
        "ReindexCheck"
    }

    fn check(&self, node: &Statement, config: &Config) -> (r: Vec<Violation>) {
        match node {
            Statement::Reindex(r) => {
                let k = match reindex_type_name(r.kind) {
                    Some(k) => k,
                    None => {
                        return no_violations();
                    },
                };
                if has_concurrently(&r.params) {
                    return no_violations();
                }
                let target = match r.kind {
                    ReindexKind::Index | ReindexKind::Table => match &r.relation {
                        Some(rv) => rv.relname.clone(),
                        None => String::new(),
                    },
                    _ => r.name.clone(),
                };
                one_violation(
                    Violation::new(
                        owned("REINDEX without CONCURRENTLY"),
                        make_reindex_problem(k, target.as_str(), reindex_type_word(r.kind)),
                        make_reindex_alternative(k, target.as_str()),
                    ),
                )
            },
            _ => no_violations(),
        }
    }
}

} // verus!
