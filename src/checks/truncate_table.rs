//! TRUNCATE: deletes every row under an ACCESS EXCLUSIVE lock.
use vstd::prelude::*;
use crate::checks::Check;
use crate::config::Config;
use crate::helpers::{extend, gather, lemma_gather_all, lemma_gather_step, no_violations, one_violation, range_var_name, rv_name};
use crate::messages::{make_truncate_alternative, make_truncate_problem, truncate_alternative, truncate_problem};
use crate::text::owned;
use crate::tree::{RangeVar, Statement};
use crate::violation::{Violation, ViolationView, views, violation_of};

verus! {

/// Flags TRUNCATE, once per truncated table.
pub struct TruncateTableCheck;

/// What one truncated table yields.
pub open spec fn truncate_fn() -> spec_fn(RangeVar) -> Seq<ViolationView> {
    |rv: RangeVar|
        seq![
            violation_of(
                "TRUNCATE TABLE"@,
                truncate_problem(rv_name(rv)),
                truncate_alternative(rv_name(rv)),
            ),
        ]
}

/// One violation per table of a TRUNCATE.
pub open spec fn truncate_spec(node: Statement) -> Seq<ViolationView> {
    match node {
        Statement::Truncate { relations, .. } => gather(relations@, truncate_fn()),
        _ => Seq::empty(),
    }
}

impl Check for TruncateTableCheck {
    open spec fn spec_name(&self) -> Seq<char> {
        "TruncateTableCheck"@
    }

    open spec fn spec_check(&self, node: Statement, config: Config) -> Seq<ViolationView> {
        truncate_spec(node)
    }

    fn name(&self) -> (r: &'static str) {
        "TruncateTableCheck"
    }

    fn check(&self, node: &Statement, config: &Config) -> (r: Vec<Violation>) {
        match node {
            Statement::Truncate { relations, .. } => {
                let ghost f = truncate_fn();
                let mut out: Vec<Violation> = Vec::new();
                let mut i: usize = 0;
                assert(views(out@) =~= gather(relations@.subrange(0, 0), f));
                while i < relations.len()
                    invariant
                        i <= relations.len(),
                        f == truncate_fn(),
                        views(out@) == gather(relations@.subrange(0, i as int), f),
                    decreases relations.len() - i,
                {
                    proof {
                        lemma_gather_step(relations@, i as int, f);
                    }
                    let table = range_var_name(&relations[i]);
                    let more = one_violation(
                        Violation::new(
                            owned("TRUNCATE TABLE"),
                            make_truncate_problem(table.as_str()),
                            make_truncate_alternative(table.as_str()),
                        ),
                    );
                    extend(&mut out, more);
                    i = i + 1;
                }
                proof {
                    lemma_gather_all(relations@, f);
                }
                out
            },
            _ => no_violations(),
        }
    }
}

} // verus!
