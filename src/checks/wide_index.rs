//! Indexes over more than three columns: rarely effective, costly to keep.
use vstd::prelude::*;
use crate::checks::Check;
use crate::checks::add_index::{index_column_names, index_columns_spec};
use crate::config::Config;
use crate::helpers::{name_or, no_violations, one_violation, opt_range_var_name, opt_rv_name};
use crate::messages::{
    make_wide_alternative, make_wide_problem, wide_alternative, wide_problem,
};
use crate::text::{decimal, decimal_spec, join, join_spec, owned, strs};
use crate::tree::Statement;
use crate::violation::{Violation, ViolationView, views, violation_of};

verus! {

/// Flags indexes over more than [`MAX_COLUMNS`] columns.
pub struct WideIndexCheck;

/// The widest index that is not flagged.
pub const MAX_COLUMNS: usize = 3;

/// One violation for a CREATE INDEX over more than three columns.
pub open spec fn wide_index_spec(node: Statement) -> Seq<ViolationView> {
    match node {
        Statement::CreateIndex(ix) => {
            let cols = index_columns_spec(ix.params@);
            if cols.len() > 3 {
                let index = name_or(ix.idxname@, "<unnamed>"@);
                let table = opt_rv_name(ix.relation);
                let count = decimal_spec(cols.len());
                seq![
                    violation_of(
                        "CREATE INDEX with too many columns"@,
                        wide_problem(index, table, count, join_spec(cols, ", "@)),
                        wide_alternative(
                            index,
                            table,
                            cols[0],
                            cols[1],
                            count,
                            join_spec(cols.subrange(1, cols.len() as int), ", "@),
                        ),
                    ),
                ]
            } else {
                Seq::empty()
            }
        },
        _ => Seq::empty(),
    }
}

/// All strings of `v` but the first.
fn all_but_first(v: &Vec<String>) -> (r: Vec<String>)
    requires
        v@.len() >= 1,
    ensures
        strs(r@) == strs(v@).subrange(1, v@.len() as int),
{
    let mut out: Vec<String> = Vec::new();
    let mut i: usize = 1;
    assert(strs(out@) =~= strs(v@).subrange(1, 1));
    while i < v.len()
        invariant
            1 <= i <= v.len(),
            out@.len() == i - 1,
            strs(out@) == strs(v@).subrange(1, i as int),
        decreases v.len() - i,
    {
        let ghost prev = out@;
        out.push(v[i].clone());
        proof {
            assert forall|j: int| 0 <= j < i implies strs(out@)[j] == strs(v@).subrange(1, i + 1)[j] by {
                if j < i - 1 {
                    assert(strs(prev)[j] == strs(v@).subrange(1, i as int)[j]);
                }
            }
            assert(strs(out@) =~= strs(v@).subrange(1, i + 1));
        }
        i = i + 1;
    }
    out
}

impl Check for WideIndexCheck {
    open spec fn spec_name(&self) -> Seq<char> {
        "WideIndexCheck"@
    }

    open spec fn spec_check(&self, node: Statement, config: Config) -> Seq<ViolationView> {
        wide_index_spec(node)
    }

    fn name(&self) -> (r: &'static str) {
        "WideIndexCheck"
    }

    fn check(&self, node: &Statement, config: &Config) -> (r: Vec<Violation>) {
        match node {
            Statement::CreateIndex(ix) => {
                let cols = index_column_names(&ix.params);
                let n = cols.len();
                proof {
                    assert(strs(cols@).len() == cols@.len());
                }
                if n <= MAX_COLUMNS {
                    return no_violations();
                }
                let index = if ix.idxname.as_str().unicode_len() == 0 {
                    owned("<unnamed>")
                } else {
                    ix.idxname.clone()
                };
                let table = opt_range_var_name(&ix.relation);
                let count = decimal(n as u64);
                let columns = join(&cols, ", ");
                let rest = all_but_first(&cols);
                let others = join(&rest, ", ");
                proof {
                    assert(strs(cols@)[0] == cols@[0]@);
                    assert(strs(cols@)[1] == cols@[1]@);
                }
                one_violation(
                    Violation::new(
                        owned("CREATE INDEX with too many columns"),
                        make_wide_problem(index.as_str(), table.as_str(), count.as_str(), columns.as_str()),
                        make_wide_alternative(
                            index.as_str(),
                            table.as_str(),
                            cols[0].as_str(),
                            cols[1].as_str(),
                            count.as_str(),
                            others.as_str(),
                        ),
                    ),
                )
            },
            _ => no_violations(),
        }
    }
}

} // verus!
